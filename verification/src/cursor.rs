//! The logical path cursor: the names pushed on the way into the tree. It
//! annotates errors with the place they happened and never touches the
//! filesystem.

use vstd::prelude::*;

verus! {

/// A logical path: the sequence of entry names between the starting
/// directory and the node under consideration. An empty cursor is the
/// starting directory itself.
#[derive(Debug)]
pub struct Cursor {
    pub parts: Vec<String>,
}

impl View for Cursor {
    type V = Seq<Seq<char>>;

    open spec fn view(&self) -> Seq<Seq<char>> {
        self.parts.deep_view()
    }
}

/// The textual form of a logical path: `.` for the starting directory,
/// with `/name` appended for every name pushed on the way down.
pub open spec fn spec_path_string(parts: Seq<Seq<char>>) -> Seq<char>
    decreases parts.len(),
{
    if parts.len() == 0 {
        seq!['.']
    } else {
        spec_path_string(parts.drop_last()) + seq!['/'] + parts.last()
    }
}

/// The cursor that stands for the directory the run starts in.
pub fn current_dir() -> (c: Cursor)
    ensures
        c@ == Seq::<Seq<char>>::empty(),
{
    let c = Cursor { parts: Vec::new() };
    proof {
        assert(c@ =~= Seq::<Seq<char>>::empty());
    }
    c
}

impl Cursor {
    /// Enters an entry: the name is appended at the end.
    pub fn push(&mut self, part: String)
        ensures
            final(self)@ == old(self)@.push(part@),
    {
        let ghost before = self@;
        let ghost p = part@;
        self.parts.push(part);
        proof {
            assert(self@ =~= before.push(p));
        }
    }

    /// Leaves an entry: the last name is dropped.
    pub fn pop(&mut self)
        requires
            old(self)@.len() > 0,
        ensures
            final(self)@ == old(self)@.drop_last(),
    {
        let ghost before = self@;
        let _ = self.parts.pop();
        proof {
            assert(self@ =~= before.drop_last());
        }
    }

    /// An independent copy of this cursor.
    pub fn snapshot(&self) -> (c: Cursor)
        ensures
            c@ == self@,
    {
        let mut parts: Vec<String> = Vec::new();
        let mut i: usize = 0;
        while i < self.parts.len()
            invariant
                i <= self.parts.len(),
                parts@.len() == i,
                forall|j: int| 0 <= j < i ==> parts@[j] == self.parts@[j],
            decreases self.parts.len() - i,
        {
            parts.push(self.parts[i].clone());
            i += 1;
        }
        let c = Cursor { parts };
        proof {
            assert(c@ =~= self@);
        }
        c
    }

    /// An independent copy of this cursor with one more name at the end:
    /// the logical path of the entry `name` under this cursor.
    pub fn child(&self, name: &String) -> (c: Cursor)
        ensures
            c@ == self@.push(name@),
    {
        let mut c = self.snapshot();
        c.push(name.clone());
        c
    }

    /// Renders the logical path as text, for error reports.
    pub fn to_path_string(&self) -> (s: String)
        ensures
            s@ == spec_path_string(self@),
    {
        let mut s = String::new();
        s.append(".");
        let mut i: usize = 0;
        proof {
            reveal_strlit(".");
            assert(s@ =~= seq!['.']);
            assert(s@ =~= spec_path_string(self@.subrange(0, 0)));
        }
        while i < self.parts.len()
            invariant
                i <= self.parts.len(),
                s@ == spec_path_string(self@.subrange(0, i as int)),
            decreases self.parts.len() - i,
        {
            let ghost before = self@.subrange(0, i as int);
            s.append("/");
            s.append(self.parts[i].as_str());
            i += 1;
            proof {
                reveal_strlit("/");
                let now = self@.subrange(0, i as int);
                assert(now.drop_last() =~= before);
                assert(self@[i - 1] == self.parts@[i - 1]@);
                assert(now.last() == self@[i - 1]);
                assert("/"@ =~= seq!['/']);
                assert(s@ =~= spec_path_string(now));
            }
        }
        proof {
            assert(self@.subrange(0, self.parts@.len() as int) =~= self@);
        }
        s
    }
}

} // verus!
