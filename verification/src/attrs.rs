//! The annotation parser: lookup of one recognized annotation.
//!
//! A field or variant carries an arbitrary annotation list.  Of those,
//! the generators recognize a single keyword; the lookup returns the one
//! annotation with that keyword, `None` when there is none, and a
//! `DuplicateAnnotation` diagnostic — reported at the second occurrence —
//! when the keyword appears more than once.

use vstd::prelude::*;
use crate::model::{view_attrs, Attr, AttrV, Diag, DiagKind};
use crate::names::str_eq;

verus! {

/// The annotations of the list whose keyword is `kw`, in order.
pub open spec fn spec_matching(attrs: Seq<AttrV>, kw: Seq<char>) -> Seq<AttrV>
    decreases attrs.len(),
{
    if attrs.len() == 0 {
        Seq::empty()
    } else {
        let rest = spec_matching(attrs.drop_last(), kw);
        if attrs.last().name == kw {
            rest.push(attrs.last())
        } else {
            rest
        }
    }
}

/// What the lookup returns: the single annotation with the keyword, or
/// nothing, or the duplicate diagnostic at the second occurrence.
pub open spec fn spec_find_attr(attrs: Seq<AttrV>, kw: Seq<char>) -> Result<Option<AttrV>, Diag> {
    let ms = spec_matching(attrs, kw);
    if ms.len() == 0 {
        Result::Ok(Option::None)
    } else if ms.len() == 1 {
        Result::Ok(Option::Some(ms[0]))
    } else {
        Result::Err(Diag { kind: DiagKind::DuplicateAnnotation, span: ms[1].span })
    }
}

/// The matching annotations of a concatenation are the concatenated
/// matching annotations of the parts.
proof fn lemma_matching_app(x: Seq<AttrV>, y: Seq<AttrV>, kw: Seq<char>)
    ensures
        spec_matching(x + y, kw) == spec_matching(x, kw) + spec_matching(y, kw),
    decreases y.len(),
{
    if y.len() == 0 {
        assert(x + y =~= x);
        assert(spec_matching(x, kw) + spec_matching(y, kw) =~= spec_matching(x, kw));
    } else {
        lemma_matching_app(x, y.drop_last(), kw);
        assert((x + y).drop_last() =~= x + y.drop_last());
        assert((x + y).last() == y.last());
        if y.last().name == kw {
            assert(spec_matching(x + y, kw) == spec_matching(x + y.drop_last(), kw).push(
                y.last(),
            ));
            assert(spec_matching(y, kw) == spec_matching(y.drop_last(), kw).push(y.last()));
            assert((spec_matching(x, kw) + spec_matching(y.drop_last(), kw)).push(y.last()) =~= (
            spec_matching(x, kw) + spec_matching(y, kw)));
        } else {
            assert(spec_matching(x + y, kw) == spec_matching(x + y.drop_last(), kw));
            assert(spec_matching(y, kw) == spec_matching(y.drop_last(), kw));
        }
    }
}

/// Returns the single annotation of the list whose keyword is `kw`, or
/// `None` when the keyword does not occur; rejects a second occurrence
/// with a `DuplicateAnnotation` diagnostic at its position.
pub fn find_attr<'a>(kw: &str, attrs: &'a Vec<Attr>) -> (r: Result<Option<&'a Attr>, Diag>)
    ensures
        (match r {
            Result::Ok(Option::None) => spec_find_attr(view_attrs(attrs@), kw@) == Result::<
                Option<AttrV>,
                Diag,
            >::Ok(Option::None),
            Result::Ok(Option::Some(a)) => spec_find_attr(view_attrs(attrs@), kw@) == Result::<
                Option<AttrV>,
                Diag,
            >::Ok(Option::Some(a@)),
            Result::Err(e) => spec_find_attr(view_attrs(attrs@), kw@) == Result::<
                Option<AttrV>,
                Diag,
            >::Err(e),
        }),
{
    let ghost av = view_attrs(attrs@);
    let mut found: Option<usize> = Option::None;
    let mut i: usize = 0;
    while i < attrs.len()
        invariant
            av == view_attrs(attrs@),
            i <= attrs@.len(),
            av.len() == attrs@.len(),
            (match found {
                Option::None => spec_matching(av.take(i as int), kw@).len() == 0,
                Option::Some(j) => j < i && spec_matching(av.take(i as int), kw@) =~= seq![
                    av[j as int],
                ],
            }),
        decreases attrs@.len() - i,
    {
        let a = &attrs[i];
        let is_match = str_eq(a.name.as_str(), kw);
        proof {
            assert(av[i as int] == attrs@[i as int]@);
            assert(av.take(i + 1).drop_last() =~= av.take(i as int));
            assert(av.take(i + 1).last() == av[i as int]);
        }
        if is_match {
            match found {
                Option::Some(_) => {
                    proof {
                        assert(spec_matching(av.take(i + 1), kw@) == spec_matching(
                            av.take(i as int),
                            kw@,
                        ).push(av[i as int]));
                        assert(av =~= av.take(i + 1) + av.skip(i + 1));
                        lemma_matching_app(av.take(i + 1), av.skip(i + 1), kw@);
                        assert(spec_matching(av, kw@).len() >= 2);
                        assert(spec_matching(av, kw@)[1] == av[i as int]);
                    }
                    return Result::Err(
                        Diag { kind: DiagKind::DuplicateAnnotation, span: a.span },
                    );
                },
                Option::None => {
                    proof {
                        assert(spec_matching(av.take(i + 1), kw@) == spec_matching(
                            av.take(i as int),
                            kw@,
                        ).push(av[i as int]));
                        assert(spec_matching(av.take(i as int), kw@).push(av[i as int]) =~= seq![
                            av[i as int],
                        ]);
                    }
                    found = Option::Some(i);
                },
            }
        } else {
            proof {
                assert(spec_matching(av.take(i + 1), kw@) == spec_matching(
                    av.take(i as int),
                    kw@,
                ));
            }
        }
        i = i + 1;
    }
    proof {
        assert(av.take(av.len() as int) =~= av);
    }
    match found {
        Option::None => Result::Ok(Option::None),
        Option::Some(j) => {
            proof {
                assert(av[j as int] == attrs@[j as int]@);
            }
            Result::Ok(Option::Some(&attrs[j]))
        },
    }
}

} // verus!
