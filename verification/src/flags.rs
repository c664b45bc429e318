//! Assembly of the engine's flag list from the host's flag string.
//!
//! The engine's flag-setting call expects the program name as a leading
//! empty element and reports back the flags it did not recognize; a fully
//! recognized list leaves exactly that leading element behind.

use vstd::prelude::*;
use vstd::string::StrSliceExecFns;
use crate::strutil::{is_split_of, split_on_char};

verus! {

/// Builds the argument list handed to the engine's flag-setting call:
/// `None` when no flags are configured (the call is skipped), otherwise a
/// leading empty element followed by the space-separated flags.
pub fn build_v8_flags(v8_flags: &str) -> (r: Option<Vec<String>>)
    ensures
        v8_flags@.len() == 0 <==> r is None,
        r matches Some(v) ==> {
            &&& v.deep_view().len() >= 2
            &&& v.deep_view()[0] == Seq::<char>::empty()
            &&& is_split_of(
                v.deep_view().subrange(1, v.deep_view().len() as int),
                v8_flags@,
                ' ',
            )
        },
{
    if v8_flags.unicode_len() == 0 {
        return None;
    }
    let mut v: Vec<String> = Vec::new();
    v.push(String::new());
    let pieces = split_on_char(v8_flags, ' ');
    let ghost pd = pieces.deep_view();
    let mut i: usize = 0;
    while i < pieces.len()
        invariant
            i <= pd.len(),
            pd == pieces.deep_view(),
            v.deep_view().len() == 1 + i,
            v.deep_view()[0] == Seq::<char>::empty(),
            v.deep_view().subrange(1, v.deep_view().len() as int) =~~= pd.subrange(0, i as int),
        decreases pd.len() - i,
    {
        let ghost vd = v.deep_view();
        v.push(pieces[i].clone());
        proof {
            assert(v.deep_view() =~~= vd.push(pd[i as int]));
            assert(v.deep_view().subrange(1, v.deep_view().len() as int) =~~= pd.subrange(
                0,
                i + 1,
            ));
        }
        i = i + 1;
    }
    proof {
        assert(pd.subrange(0, pd.len() as int) =~~= pd);
    }
    Some(v)
}

/// Whether the engine rejected any configured flag: the reported list of
/// ignored arguments holds more than the leading empty element.
pub fn v8_flags_unrecognized(ignored: &Vec<String>) -> (r: bool)
    ensures
        r <==> ignored.deep_view() != seq![Seq::<char>::empty()],
{
    if ignored.len() != 1 {
        proof {
            assert(ignored.deep_view().len() == ignored@.len());
        }
        return true;
    }
    let unrecognized = ignored[0].as_str().unicode_len() != 0;
    proof {
        if !unrecognized {
            assert(ignored.deep_view() =~~= seq![Seq::<char>::empty()]);
        } else {
            assert(ignored.deep_view()[0].len() != 0);
        }
    }
    unrecognized
}

} // verus!
