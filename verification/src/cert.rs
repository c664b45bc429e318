//! Selection of TLS root-certificate stores from the process environment.
//!
//! The selector value is a comma-separated list of store names; names are
//! trimmed, empty fields are dropped, and only `mozilla` and `system` are
//! recognized. An unrecognized name rejects the whole selection. Without a
//! selector the Mozilla store alone is used.

use vstd::prelude::*;
use crate::strutil::{is_split_of, spec_join, spec_trim, split_on_char, str_eq, trim_spaces};

verus! {

/// A recognized root-certificate store.
#[derive(Clone, Copy, Debug, PartialEq, Eq, Structural)]
pub enum CaStore {
    /// The bundled Mozilla root store.
    Mozilla,
    /// The operating system's certificate store.
    System,
}

/// The store a (trimmed) selector field names, if any.
pub open spec fn spec_store_of(name: Seq<char>) -> Option<CaStore> {
    if name == "mozilla"@ {
        Some(CaStore::Mozilla)
    } else if name == "system"@ {
        Some(CaStore::System)
    } else {
        None
    }
}

/// The store names a selector's fields yield: each field trimmed, empty
/// fields dropped.
pub open spec fn spec_store_names(pieces: Seq<Seq<char>>) -> Seq<Seq<char>> {
    pieces.map_values(|p: Seq<char>| spec_trim(p)).filter(|p: Seq<char>| p.len() > 0)
}

/// How a name list resolves: every name names a store, in order, or the
/// first unrecognized name is reported.
pub open spec fn spec_resolution(names: Seq<Seq<char>>, r: Result<Seq<CaStore>, Seq<char>>) -> bool {
    match r {
        Ok(stores) => {
            &&& stores.len() == names.len()
            &&& forall|i: int|
                0 <= i < names.len() ==> spec_store_of(#[trigger] names[i]) == Some(stores[i])
        },
        Err(bad) => exists|i: int|
            #![trigger names[i]]
            {
                &&& 0 <= i < names.len()
                &&& spec_store_of(names[i]) is None
                &&& bad == names[i]
                &&& forall|j: int| 0 <= j < i ==> spec_store_of(#[trigger] names[j]) is Some
            },
    }
}

/// Mapping then filtering a one-longer prefix appends at most that field's
/// trimmed name.
proof fn lemma_store_names_push(pieces: Seq<Seq<char>>, p: Seq<char>)
    ensures
        spec_store_names(pieces.push(p)) == if spec_trim(p).len() > 0 {
            spec_store_names(pieces).push(spec_trim(p))
        } else {
            spec_store_names(pieces)
        },
{
    reveal(Seq::filter);
    let f = |q: Seq<char>| spec_trim(q);
    let pred = |q: Seq<char>| q.len() > 0;
    let m = pieces.map_values(f);
    assert(pieces.push(p).map_values(f) =~= m.push(f(p)));
    assert(m.push(f(p)).drop_last() =~= m);
    if pred(f(p)) {
        assert(m.push(f(p)).filter(pred) =~= m.filter(pred).push(f(p)));
    } else {
        assert(m.push(f(p)).filter(pred) =~= m.filter(pred));
    }
}

/// How a whole selector value resolves: no selector picks the Mozilla
/// store; otherwise the result follows from the selector's comma-split
/// fields as [`spec_resolution`] describes.
pub open spec fn spec_selector_resolves(
    sel: Option<Seq<char>>,
    r: Result<Seq<CaStore>, Seq<char>>,
) -> bool {
    match sel {
        None => r == Ok::<Seq<CaStore>, Seq<char>>(seq![CaStore::Mozilla]),
        Some(sv) => exists|pieces: Seq<Seq<char>>|
            #![trigger spec_join(pieces, ',')]
            {
                &&& is_split_of(pieces, sv, ',')
                &&& spec_resolution(spec_store_names(pieces), r)
            },
    }
}

/// Resolves a certificate-store selector into the stores to load.
///
/// `None` selects the Mozilla store. Otherwise the selector splits on
/// commas; each trimmed, non-empty field must name a recognized store, and
/// the first field that does not is returned as the error.
pub fn resolve_ca_stores(selector: &Option<String>) -> (r: Result<Vec<CaStore>, String>)
    ensures
        spec_selector_resolves(
            selector.deep_view(),
            match r {
                Ok(stores) => Ok(stores@),
                Err(bad) => Err(bad@),
            },
        ),
{
    let s = match selector {
        None => {
            let mut stores: Vec<CaStore> = Vec::new();
            stores.push(CaStore::Mozilla);
            proof {
                assert(stores@ =~= seq![CaStore::Mozilla]);
            }
            return Ok(stores);
        },
        Some(s) => s,
    };
    assert(*selector == Some(*s));
    let pieces = split_on_char(s.as_str(), ',');
    let ghost pd = pieces.deep_view();
    let mut stores: Vec<CaStore> = Vec::new();
    let mut i: usize = 0;
    while i < pieces.len()
        invariant
            i <= pd.len(),
            pd == pieces.deep_view(),
            *selector == Some(*s),
            is_split_of(pd, s@, ','),
            ({
                let names = spec_store_names(pd.subrange(0, i as int));
                &&& stores@.len() == names.len()
                &&& forall|k: int|
                    0 <= k < names.len() ==> spec_store_of(#[trigger] names[k]) == Some(stores@[k])
            }),
        decreases pd.len() - i,
    {
        let ghost names_before = spec_store_names(pd.subrange(0, i as int));
        let trimmed = trim_spaces(pieces[i].as_str());
        proof {
            assert(pd.subrange(0, i + 1) =~= pd.subrange(0, i as int).push(pd[i as int]));
            lemma_store_names_push(pd.subrange(0, i as int), pd[i as int]);
        }
        if trimmed.as_str().unicode_len() == 0 {
            i = i + 1;
            continue ;
        }
        let store = if str_eq(trimmed.as_str(), "mozilla") {
            Some(CaStore::Mozilla)
        } else if str_eq(trimmed.as_str(), "system") {
            Some(CaStore::System)
        } else {
            None
        };
        match store {
            Some(cs) => {
                stores.push(cs);
                proof {
                    let names = spec_store_names(pd.subrange(0, i + 1));
                    assert(names =~= names_before.push(trimmed@));
                    assert(spec_store_of(trimmed@) == Some(cs));
                }
                i = i + 1;
            },
            None => {
                proof {
                    assert(pd =~= pd.subrange(0, i + 1) + pd.subrange(i + 1, pd.len() as int));
                    lemma_store_names_concat(
                        pd.subrange(0, i + 1),
                        pd.subrange(i + 1, pd.len() as int),
                    );
                    let names = spec_store_names(pd);
                    let prefix_names = spec_store_names(pd.subrange(0, i + 1));
                    let bad_at = names_before.len() as int;
                    assert(prefix_names =~= names_before.push(trimmed@));
                    assert(names[bad_at] == prefix_names[bad_at]);
                    assert(names[bad_at] == trimmed@);
                    assert(spec_store_of(names[bad_at]) is None);
                    assert forall|j: int| 0 <= j < bad_at implies spec_store_of(
                        #[trigger] names[j],
                    ) is Some by {
                        assert(names[j] == prefix_names[j]);
                        assert(prefix_names[j] == names_before[j]);
                    }
                    assert(is_split_of(pd, s@, ','));
                    assert(spec_resolution(spec_store_names(pd), Err(trimmed@)));
                    assert(selector.deep_view() == Some(s@));
                    assert(spec_selector_resolves(Some(s@), Err(trimmed@)));
                }
                return Err(trimmed);
            },
        }
    }
    proof {
        assert(pd.subrange(0, pd.len() as int) =~= pd);
        assert(is_split_of(pd, s@, ','));
        assert(spec_resolution(spec_store_names(pd), Ok(stores@)));
        assert(selector.deep_view() == Some(s@));
        assert(spec_selector_resolves(Some(s@), Ok(stores@)));
    }
    Ok(stores)
}

/// Store-name extraction distributes over concatenation of field lists.
proof fn lemma_store_names_concat(a: Seq<Seq<char>>, b: Seq<Seq<char>>)
    ensures
        spec_store_names(a + b) == spec_store_names(a) + spec_store_names(b),
{
    let f = |q: Seq<char>| spec_trim(q);
    let pred = |q: Seq<char>| q.len() > 0;
    assert((a + b).map_values(f) =~= a.map_values(f) + b.map_values(f));
    Seq::<Seq<char>>::filter_distributes_over_add(a.map_values(f), b.map_values(f), pred);
}

} // verus!
