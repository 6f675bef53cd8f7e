//! The frame-rate reporter: once per frame, when a smoothed sample is
//! available, it is formatted with two decimal places and written into
//! segment 1 of every entity tagged for frame-rate display. Without a
//! sample, and for untagged entities, nothing changes.
//!
//! The smoothed sample arrives in hundredths (centi-units), so "59.88"
//! stands for the sample 5988.
//!
//! The startup scene carries no frame-rate-tagged entity, so there the
//! reporter provably changes nothing; a store that gains such an entity
//! (a label at segment 0, the value at segment 1) is maintained as stated
//! here.

use vstd::prelude::*;
use vstd::string::StringExecFns;
use crate::scene::{with_seg1_value, Entity, EntityModel, Store};

verus! {

/// The decimal digit character for `d`.
pub open spec fn digit_char(d: int) -> char {
    if d == 0 {
        '0'
    } else if d == 1 {
        '1'
    } else if d == 2 {
        '2'
    } else if d == 3 {
        '3'
    } else if d == 4 {
        '4'
    } else if d == 5 {
        '5'
    } else if d == 6 {
        '6'
    } else if d == 7 {
        '7'
    } else if d == 8 {
        '8'
    } else {
        '9'
    }
}

/// The decimal digits of `n`, most significant first, with no leading
/// zeros except for zero itself.
pub open spec fn spec_decimal(n: int) -> Seq<char>
    decreases n,
{
    if n < 10 {
        seq![digit_char(n)]
    } else {
        spec_decimal(n / 10).push(digit_char(n % 10))
    }
}

/// The sample `centi` hundredths, written with two decimal places.
pub open spec fn spec_fps_text(centi: int) -> Seq<char> {
    spec_decimal(centi / 100) + seq!['.', digit_char((centi % 100) / 10), digit_char(centi % 10)]
}

/// The digit character for `d`, as a string slice.
fn digit_str(d: u64) -> (s: &'static str)
    requires
        d < 10,
    ensures
        s@ == seq![digit_char(d as int)],
{
    let s = if d == 0 {
        "0"
    } else if d == 1 {
        "1"
    } else if d == 2 {
        "2"
    } else if d == 3 {
        "3"
    } else if d == 4 {
        "4"
    } else if d == 5 {
        "5"
    } else if d == 6 {
        "6"
    } else if d == 7 {
        "7"
    } else if d == 8 {
        "8"
    } else {
        "9"
    };
    proof {
        reveal_strlit("0");
        reveal_strlit("1");
        reveal_strlit("2");
        reveal_strlit("3");
        reveal_strlit("4");
        reveal_strlit("5");
        reveal_strlit("6");
        reveal_strlit("7");
        reveal_strlit("8");
        reveal_strlit("9");
        assert(s@ =~= seq![digit_char(d as int)]);
    }
    s
}

/// Writes `n` in decimal.
pub fn format_u64(n: u64) -> (s: String)
    ensures
        s@ == spec_decimal(n as int),
    decreases n,
{
    if n < 10 {
        String::from_str(digit_str(n))
    } else {
        let s = format_u64(n / 10).concat(digit_str(n % 10));
        proof {
            assert(s@ =~= spec_decimal(n as int));
        }
        s
    }
}

/// Formats a smoothed sample of `centi` hundredths with two decimal
/// places, as the frame-rate display shows it.
pub fn format_fps_centi(centi: u64) -> (s: String)
    ensures
        s@ == spec_fps_text(centi as int),
{
    let whole = format_u64(centi / 100);
    let tenths = digit_str(centi % 100 / 10);
    let hundredths = digit_str(centi % 10);
    let s = whole.concat(".").concat(tenths).concat(hundredths);
    proof {
        reveal_strlit(".");
        assert(s@ =~= spec_fps_text(centi as int));
    }
    s
}

/// One entity after the reporter's pass with sample `centi`.
pub open spec fn report_entity(e: EntityModel, centi: int) -> EntityModel {
    match e {
        EntityModel::Camera => e,
        EntityModel::Text(t) => if t.fps {
            EntityModel::Text(with_seg1_value(t, spec_fps_text(centi)))
        } else {
            e
        },
    }
}

/// The whole store after the reporter's pass with sample `centi`.
pub open spec fn report_store(s: Seq<EntityModel>, centi: int) -> Seq<EntityModel> {
    s.map_values(|e: EntityModel| report_entity(e, centi))
}

/// The reporter keeps an entity well formed.
pub proof fn lemma_report_preserves_wf(e: EntityModel, centi: int)
    requires
        e.wf(),
    ensures
        report_entity(e, centi).wf(),
{
    match e {
        EntityModel::Camera => {},
        EntityModel::Text(t) => {
            if t.fps {
                let t2 = with_seg1_value(t, spec_fps_text(centi));
                assert forall|j: int| 0 <= j < t2.segments.len() implies (#[trigger] t2.segments[j]).color.valid() by {
                    if j != 1 {
                        assert(t2.segments[j] == t.segments[j]);
                    } else {
                        assert(t2.segments[j].color == t.segments[j].color);
                    }
                }
            }
        },
    }
}

/// Where no entity carries the frame-rate tag, the reporter's pass leaves
/// the store exactly as it was — however many times it runs.
pub proof fn lemma_reporter_inert_without_tag(s: Seq<EntityModel>, centi: int)
    requires
        forall|i: int| 0 <= i < s.len() ==> !(#[trigger] s[i]).is_fps(),
    ensures
        report_store(s, centi) == s,
{
    assert forall|i: int| 0 <= i < s.len() implies #[trigger] report_store(s, centi)[i] == s[i] by {
        match s[i] {
            EntityModel::Camera => {},
            EntityModel::Text(t) => {},
        }
    }
    assert(report_store(s, centi) =~= s);
}

/// Writes the formatted sample into segment 1 of every entity tagged for
/// frame-rate display; without a sample the store is left untouched.
pub fn report_fps(store: &mut Store, sample_centi: Option<u64>)
    requires
        old(store).wf(),
    ensures
        final(store).wf(),
        (match sample_centi {
            None => final(store)@ == old(store)@,
            Some(c) => final(store)@ == report_store(old(store)@, c as int),
        }),
{
    let c = match sample_centi {
        None => {
            return ;
        },
        Some(c) => c,
    };
    let text = format_fps_centi(c);
    let ghost pre = old(store)@;
    let ghost pre_ents = old(store).entities@;
    let n = store.entities.len();
    let mut i: usize = 0;
    while i < n
        invariant
            n == store.entities@.len(),
            n == pre.len(),
            n == pre_ents.len(),
            pre == pre_ents.map_values(|e: Entity| e@),
            text@ == spec_fps_text(c as int),
            i <= n,
            forall|j: int| 0 <= j < n ==> (#[trigger] pre[j]).wf(),
            forall|j: int| 0 <= j < i ==> store@[j] == report_entity(pre[j], c as int),
            forall|j: int| i <= j < n ==> store.entities@[j] == pre_ents[j],
        decreases n - i,
    {
        let ghost top = store@;
        let ghost mid = store.entities@;
        let e = store.entities.remove(i);
        proof {
            assert(e == pre_ents[i as int]);
            assert(pre[i as int] == e@);
            assert(pre[i as int].wf());
        }
        let e2 = match e {
            Entity::Camera => Entity::Camera,
            Entity::Text(mut t) => {
                proof {
                    assert(pre[i as int] == EntityModel::Text(t@));
                    assert(t@.segments.len() == t.segments@.len());
                }
                if t.fps {
                    t.set_seg1_value(text.clone());
                }
                Entity::Text(t)
            },
        };
        proof {
            assert(e2@ == report_entity(pre[i as int], c as int));
        }
        store.entities.insert(i, e2);
        proof {
            assert(store.entities@ =~= mid.update(i as int, e2));
            assert forall|j: int| 0 <= j < i + 1 implies store@[j] == report_entity(pre[j], c as int) by {
                assert(store@[j] == store.entities@[j]@);
                if j < i {
                    assert(store.entities@[j] == mid[j]);
                    assert(top[j] == mid[j]@);
                    assert(top[j] == report_entity(pre[j], c as int));
                } else {
                    assert(store.entities@[j] == e2);
                }
            }
        }
        i += 1;
    }
    proof {
        assert(store@ =~~= report_store(pre, c as int));
        assert forall|j: int| 0 <= j < store@.len() implies (#[trigger] store@[j]).wf() by {
            lemma_report_preserves_wf(pre[j], c as int);
        }
    }
}

} // verus!
