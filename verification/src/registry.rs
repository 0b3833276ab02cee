//! Capability registry: the advertisements a server announces during
//! enumeration, and resolution of the ones matching a requested interface.

use vstd::prelude::*;
use crate::error::CaptureError;

verus! {

/// A server-announced capability record: a bindable interface at a version,
/// identified by a registry name that stays unique for the session.
pub struct Advertisement {
    pub id: u32,
    pub interface: String,
    pub version: u32,
}

/// Spec-level value of an advertisement.
pub struct AdvertisementView {
    pub id: u32,
    pub interface: Seq<char>,
    pub version: u32,
}

impl View for Advertisement {
    type V = AdvertisementView;

    open spec fn view(&self) -> AdvertisementView {
        AdvertisementView { id: self.id, interface: self.interface@, version: self.version }
    }
}

impl Advertisement {
    /// A copy of this advertisement.
    pub fn duplicate(&self) -> (r: Advertisement)
        ensures
            r@ == self@,
    {
        Advertisement { id: self.id, interface: self.interface.clone(), version: self.version }
    }
}

/// The advertisements of `ads` as spec values, in order.
pub open spec fn ad_views(ads: Seq<Advertisement>) -> Seq<AdvertisementView> {
    ads.map_values(|a: Advertisement| a@)
}

/// The subsequence of `ads` advertising interface `name`, in server order.
pub open spec fn matching(ads: Seq<AdvertisementView>, name: Seq<char>) -> Seq<AdvertisementView> {
    ads.filter(|a: AdvertisementView| a.interface == name)
}

/// All advertisements for interface `name`, in the order the server
/// announced them. Advertisements for other interfaces are ignored.
pub fn resolve_all(ads: &Vec<Advertisement>, name: &String) -> (r: Vec<Advertisement>)
    ensures
        ad_views(r@) == matching(ad_views(ads@), name@),
{
    let ghost pred = |a: AdvertisementView| a.interface == name@;
    let mut out: Vec<Advertisement> = Vec::new();
    let mut i: usize = 0;
    while i < ads.len()
        invariant
            i <= ads@.len(),
            ad_views(out@) == matching(ad_views(ads@.subrange(0, i as int)), name@),
        decreases ads@.len() - i,
    {
        proof {
            reveal(Seq::filter);
            let pre = ad_views(ads@.subrange(0, i as int));
            let ext = ad_views(ads@.subrange(0, i as int + 1));
            assert(ads@.subrange(0, i as int + 1) =~= ads@.subrange(0, i as int).push(ads@[i as int]));
            assert(ext =~= pre.push(ads@[i as int]@));
            assert(ext.drop_last() =~= pre);
            if pred(ads@[i as int]@) {
                assert(ext.filter(pred) =~= pre.filter(pred).push(ads@[i as int]@));
            } else {
                assert(ext.filter(pred) =~= pre.filter(pred));
            }
        }
        if ads[i].interface == *name {
            out.push(ads[i].duplicate());
            proof {
                assert(ad_views(out@) =~= matching(ad_views(ads@.subrange(0, i as int + 1)), name@));
            }
        } else {
            proof {
                assert(ad_views(out@) =~= matching(ad_views(ads@.subrange(0, i as int + 1)), name@));
            }
        }
        i = i + 1;
    }
    proof {
        assert(ads@.subrange(0, ads@.len() as int) =~= ads@);
    }
    out
}

/// The most recently advertised capability for interface `name`: the last
/// matching advertisement in server order. Fails with `CapabilityMissing`
/// exactly when no advertisement matches.
pub fn resolve_last(ads: &Vec<Advertisement>, name: &String) -> (r: Result<
    Advertisement,
    CaptureError,
>)
    ensures
        ({
            let m = matching(ad_views(ads@), name@);
            match r {
                Ok(a) => m.len() > 0 && a@ == m.last(),
                Err(e) => m.len() == 0 && (e matches CaptureError::CapabilityMissing {
                    interface,
                } && interface@ == name@),
            }
        }),
{
    let mut all = resolve_all(ads, name);
    match all.pop() {
        Some(a) => Ok(a),
        None => Err(CaptureError::CapabilityMissing { interface: name.clone() }),
    }
}

} // verus!
