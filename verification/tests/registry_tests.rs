use dmabuf_capture::binder::{
    manager_interface, output_interface, Binder, MANAGER_SUPPORTED_VERSION,
    OUTPUT_SUPPORTED_VERSION,
};
use dmabuf_capture::error::CaptureError;
use dmabuf_capture::registry::Advertisement;
use dmabuf_capture::registry::{resolve_all, resolve_last};

fn sample_ads() -> Vec<Advertisement> {
    vec![
        Advertisement { id: 1, interface: manager_interface(), version: 1 },
        Advertisement { id: 2, interface: output_interface(), version: 3 },
        Advertisement { id: 5, interface: "wl_compositor".to_owned(), version: 4 },
        Advertisement { id: 9, interface: output_interface(), version: 3 },
    ]
}

#[test]
fn resolve_all_keeps_server_order() {
    let ads = sample_ads();
    let outputs = resolve_all(&ads, &output_interface());
    assert_eq!(outputs.len(), 2);
    assert_eq!(outputs[0].id, 2);
    assert_eq!(outputs[1].id, 9);
    assert_eq!(outputs[0].version, 3);
    assert_eq!(outputs[0].interface, output_interface());
}

#[test]
fn resolve_all_ignores_unrecognized_interfaces() {
    let ads = sample_ads();
    let managers = resolve_all(&ads, &manager_interface());
    assert_eq!(managers.len(), 1);
    assert_eq!(managers[0].id, 1);
}

#[test]
fn resolve_all_empty_input_yields_empty() {
    let ads: Vec<Advertisement> = Vec::new();
    assert_eq!(resolve_all(&ads, &output_interface()).len(), 0);
}

#[test]
fn resolve_last_selects_last_advertised() {
    let ads = sample_ads();
    let out = resolve_last(&ads, &output_interface()).unwrap();
    assert_eq!(out.id, 9);
    let mgr = resolve_last(&ads, &manager_interface()).unwrap();
    assert_eq!(mgr.id, 1);
}

#[test]
fn resolve_last_missing_capability_is_reported() {
    let ads = vec![Advertisement { id: 2, interface: output_interface(), version: 3 }];
    match resolve_last(&ads, &manager_interface()) {
        Err(CaptureError::CapabilityMissing { interface }) => {
            assert_eq!(interface, manager_interface());
        }
        _ => panic!("expected CapabilityMissing"),
    }
}

#[test]
fn bind_allocates_distinct_increasing_ids() {
    let ads = sample_ads();
    let mut binder = Binder::new(2);
    let mgr_ad = resolve_last(&ads, &manager_interface()).unwrap();
    let out_ad = resolve_last(&ads, &output_interface()).unwrap();
    let mgr = binder.bind(&mgr_ad, MANAGER_SUPPORTED_VERSION).unwrap();
    let out = binder.bind(&out_ad, OUTPUT_SUPPORTED_VERSION).unwrap();
    assert_eq!(mgr.proxy_id, 2);
    assert_eq!(out.proxy_id, 3);
    assert_ne!(mgr.proxy_id, out.proxy_id);
    assert_eq!(mgr.advertisement_id, 1);
    assert_eq!(out.advertisement_id, 9);
    assert_eq!(mgr.version, 1);
    assert_eq!(out.version, 3);
}

#[test]
fn bind_rejects_versions_beyond_support() {
    let ad = Advertisement { id: 4, interface: manager_interface(), version: 2 };
    let mut binder = Binder::new(2);
    match binder.bind(&ad, MANAGER_SUPPORTED_VERSION) {
        Err(CaptureError::BindRejected { interface, advertised, supported }) => {
            assert_eq!(interface, manager_interface());
            assert_eq!(advertised, 2);
            assert_eq!(supported, 1);
        }
        _ => panic!("expected BindRejected"),
    }
}
