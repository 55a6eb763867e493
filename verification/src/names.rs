//! Validation of entry names: every name must form exactly one regular path
//! component before anything is done on the filesystem for that entry.

use vstd::prelude::*;

verus! {

/// Outcome of checking one entry name against the single-component rule.
#[derive(Debug, Clone, Copy, PartialEq, Eq, Structural)]
pub enum NameCheck {
    /// The name is exactly one regular path component.
    Valid,
    /// The name does not form exactly one path component: it is empty or it
    /// holds a separator.
    MultipleComponents,
    /// The name is a single but special component: `.`, `..` or the root.
    NotRegular,
}

/// A name that denotes an existing special component: the current directory,
/// the parent directory, or the filesystem root.
pub open spec fn is_special_marker(s: Seq<char>) -> bool {
    s == seq!['.'] || s == seq!['.', '.'] || s == seq!['/']
}

/// The name holds a path separator somewhere.
pub open spec fn has_separator(s: Seq<char>) -> bool {
    exists|i: int| 0 <= i < s.len() && s[i] == '/'
}

/// How one entry name is classified. The three special markers are refused
/// as non-regular components; an empty name, or one holding a separator,
/// does not decompose into exactly one component; everything else is one
/// regular component.
pub open spec fn spec_name_check(s: Seq<char>) -> NameCheck {
    if is_special_marker(s) {
        NameCheck::NotRegular
    } else if s.len() == 0 || has_separator(s) {
        NameCheck::MultipleComponents
    } else {
        NameCheck::Valid
    }
}

/// Checks that an entry name forms exactly one regular path component.
pub fn check_name(name: &str) -> (r: NameCheck)
    ensures
        r == spec_name_check(name@),
{
    let n = name.unicode_len();
    if n == 0 {
        return NameCheck::MultipleComponents;
    }
    if n == 1 {
        let c = name.get_char(0);
        if c == '.' || c == '/' {
            proof {
                assert(name@ =~= seq![c]);
            }
            return NameCheck::NotRegular;
        }
        proof {
            assert(!has_separator(name@)) by {
                assert(forall|i: int| 0 <= i < name@.len() ==> name@[i] == c);
            }
        }
        return NameCheck::Valid;
    }
    if n == 2 {
        let c0 = name.get_char(0);
        let c1 = name.get_char(1);
        if c0 == '.' && c1 == '.' {
            proof {
                assert(name@ =~= seq!['.', '.']);
            }
            return NameCheck::NotRegular;
        }
        if c0 == '/' || c1 == '/' {
            return NameCheck::MultipleComponents;
        }
        proof {
            assert(!has_separator(name@)) by {
                assert(forall|i: int| 0 <= i < name@.len() ==> name@[i] == c0 || name@[i]
                    == c1);
            }
        }
        return NameCheck::Valid;
    }
    let mut i: usize = 0;
    while i < n
        invariant
            n == name@.len(),
            n >= 3,
            i <= n,
            forall|j: int| 0 <= j < i ==> name@[j] != '/',
        decreases n - i,
    {
        if name.get_char(i) == '/' {
            return NameCheck::MultipleComponents;
        }
        i += 1;
    }
    NameCheck::Valid
}

} // verus!
