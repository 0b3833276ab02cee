//! Capability binder: turns a resolved advertisement into a local proxy
//! record through which the connection layer sends typed requests. The
//! binder chooses the local proxy ids; sending the bind request itself is
//! the connection layer's job.

use vstd::prelude::*;
use crate::error::CaptureError;
use crate::registry::Advertisement;

verus! {

/// Interface name of the one-shot frame-capture manager capability.
pub open spec fn manager_interface_name() -> Seq<char> {
    "zwlr_export_dmabuf_manager_v1"@
}

/// Interface name of the output-device capability.
pub open spec fn output_interface_name() -> Seq<char> {
    "wl_output"@
}

/// Highest version of the capture-manager interface this client speaks.
pub const MANAGER_SUPPORTED_VERSION: u32 = 1;

/// Highest version of the output interface this client speaks.
pub const OUTPUT_SUPPORTED_VERSION: u32 = 3;

/// The interface name of the frame-capture manager capability.
pub fn manager_interface() -> (s: String)
    ensures
        s@ == manager_interface_name(),
{
    "zwlr_export_dmabuf_manager_v1".to_owned()
}

/// The interface name of the output-device capability.
pub fn output_interface() -> (s: String)
    ensures
        s@ == output_interface_name(),
{
    "wl_output".to_owned()
}

/// A local handle bound to one advertisement. Its proxy id is chosen by the
/// client and is unique among the proxies one binder hands out.
pub struct CapabilityProxy {
    pub proxy_id: u32,
    pub advertisement_id: u32,
    pub interface: String,
    pub version: u32,
}

/// Allocates local proxy ids and decides whether an advertisement can be
/// bound. Ids are handed out in strictly increasing order, so every proxy a
/// binder produces carries a distinct id.
pub struct Binder {
    next_proxy_id: u32,
}

impl Binder {
    /// The id the next successful bind will use.
    pub closed spec fn next_id(&self) -> u32 {
        self.next_proxy_id
    }

    /// A fresh binder whose first proxy id is `first_id`. The connection
    /// layer supplies the first id it has not already used for its own
    /// protocol objects.
    pub fn new(first_id: u32) -> (b: Binder)
        ensures
            b.next_id() == first_id,
    {
        Binder { next_proxy_id: first_id }
    }

    /// Bind an advertisement, producing the proxy record for it. Succeeds
    /// exactly when the advertised version does not exceed what this client
    /// supports for the interface; the bind request then asks for the
    /// advertised version. Fails with `BindRejected` otherwise.
    pub fn bind(&mut self, adv: &Advertisement, supported_version: u32) -> (r: Result<
        CapabilityProxy,
        CaptureError,
    >)
        requires
            old(self).next_id() < u32::MAX,
        ensures
            ({
                match r {
                    Ok(p) => adv@.version <= supported_version && p.proxy_id == old(
                        self,
                    ).next_id() && p.advertisement_id == adv@.id && p.interface@ == adv@.interface
                        && p.version == adv@.version && final(self).next_id() == old(self).next_id()
                        + 1,
                    Err(e) => adv@.version > supported_version && *final(self) == *old(self) && (
                    e matches CaptureError::BindRejected { interface, advertised, supported }
                        && interface@ == adv@.interface && advertised == adv@.version && supported
                        == supported_version),
                }
            }),
    {
        if adv.version > supported_version {
            Err(
                CaptureError::BindRejected {
                    interface: adv.interface.clone(),
                    advertised: adv.version,
                    supported: supported_version,
                },
            )
        } else {
            let id = self.next_proxy_id;
            self.next_proxy_id = self.next_proxy_id + 1;
            Ok(
                CapabilityProxy {
                    proxy_id: id,
                    advertisement_id: adv.id,
                    interface: adv.interface.clone(),
                    version: adv.version,
                },
            )
        }
    }
}

} // verus!
