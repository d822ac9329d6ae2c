//! The host-side services of an admitted node: configuration for posting to
//! the coordinator, and the relay decisions.
//!
//! The relay loop itself (HTTP to the local trusted node, posting to the
//! ledger, sleeping) runs outside this crate; which registrations a poll must
//! process is decided here.

use vstd::prelude::*;
use crate::records::PendingObject;

verus! {

/// An admitted node's host-side configuration: the cluster contract it posts
/// to and the posting key it signs with.
pub struct HostServices {
    pub contract: [u8; 32],
    pub secret: [u8; 32],
}

impl HostServices {
    pub fn new(contract: [u8; 32], secret: [u8; 32]) -> (r: Self)
        ensures
            r.contract == contract,
            r.secret == secret,
    {
        HostServices { contract, secret }
    }
}

/// Appending one record filters to appending it when it qualifies.
proof fn lemma_filter_push(s: Seq<PendingObject>, x: PendingObject, pred: spec_fn(PendingObject) -> bool)
    ensures
        s.push(x).filter(pred) == if pred(x) {
            s.filter(pred).push(x)
        } else {
            s.filter(pred)
        },
{
    reveal_with_fuel(Seq::filter, 2);
    assert(s.push(x).drop_last() =~= s);
    assert(s.push(x).last() == x);
}

/// One relay poll: of all registrations posted so far, those strictly newer
/// than this relay's watermark, in posting order. Each selected record is
/// forwarded to the local node's admission endpoint; an error on one record
/// is contained to that record.
pub fn select_pending(records: Vec<PendingObject>, last_seen: i64) -> (r: Vec<PendingObject>)
    ensures
        r@ == records@.filter(|p: PendingObject| p.at_time > last_seen),
{
    let ghost orig = records@;
    let ghost pred = |p: PendingObject| p.at_time > last_seen;
    let mut rest = records;
    let mut out: Vec<PendingObject> = Vec::new();
    proof {
        assert(orig.take(0) =~= Seq::<PendingObject>::empty());
        assert(orig.take(0).filter(pred) =~= Seq::<PendingObject>::empty());
    }
    while rest.len() > 0
        invariant
            pred == (|p: PendingObject| p.at_time > last_seen),
            rest@.len() <= orig.len(),
            rest@ == orig.skip(orig.len() - rest@.len()),
            out@ == orig.take(orig.len() - rest@.len()).filter(pred),
        decreases rest@.len(),
    {
        let ghost k = orig.len() - rest@.len();
        let ghost rest_before = rest@;
        let p = rest.remove(0);
        proof {
            assert(p == rest_before[0]);
            assert(p == orig[k]);
            assert(rest@ =~= orig.skip(k + 1));
            assert(orig.take(k + 1) =~= orig.take(k).push(orig[k]));
            lemma_filter_push(orig.take(k), orig[k], pred);
        }
        if p.at_time > last_seen {
            out.push(p);
            proof {
                assert(pred(orig[k]));
            }
        } else {
            proof {
                assert(!pred(orig[k]));
            }
        }
        proof {
            assert(out@ == orig.take(k + 1).filter(pred));
        }
    }
    proof {
        assert(orig.take(orig.len() as int) =~= orig);
    }
    out
}

} // verus!
