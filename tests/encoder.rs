use drm::control::crtc::Handle as CrtcHandle;
use drm::control::encoder::{Handle, Info, Kind};
use drm::control::encoder::{DRM_MODE_ENCODER_DPI, DRM_MODE_ENCODER_TMDS};
use drm::control::filter::ResourceFilter;

const ALL_KINDS: [Kind; 9] = [
    Kind::Unknown,
    Kind::DAC,
    Kind::TMDS,
    Kind::LVDS,
    Kind::TVDAC,
    Kind::Virtual,
    Kind::DSI,
    Kind::DPMST,
    Kind::DPI,
];

#[test]
fn kind_codes_are_the_kernel_codes() {
    let codes: Vec<u32> = ALL_KINDS.iter().map(|k| k.to_raw()).collect();
    assert_eq!(codes, vec![0, 1, 2, 3, 4, 5, 6, 7, 8]);
    assert_eq!(Kind::TMDS.to_raw(), DRM_MODE_ENCODER_TMDS);
    assert_eq!(Kind::DPI.to_raw(), DRM_MODE_ENCODER_DPI);
}

#[test]
fn known_kinds_round_trip() {
    for k in ALL_KINDS {
        let code = k.to_raw();
        assert_eq!(Kind::from_raw(code), k);
        assert_eq!(Kind::from_raw(code).to_raw(), code);
        let through_from: u32 = Kind::from(code).into();
        assert_eq!(through_from, code);
    }
}

#[test]
fn unassigned_codes_decode_to_unknown() {
    for code in [9u32, 10, 42, 0x8000_0000, u32::MAX] {
        assert_eq!(Kind::from_raw(code), Kind::Unknown);
        assert_eq!(Kind::from(code), Kind::Unknown);
        assert_eq!(Kind::from_raw(code).to_raw(), 0);
    }
}

#[test]
fn handles_convert_to_and_from_raw() {
    let h = Handle::from(42u32);
    let raw: u32 = h.into();
    assert_eq!(raw, 42);
    assert_eq!(h, Handle(42));
    assert_ne!(h, Handle(43));
    let c = CrtcHandle::from(7u32);
    let raw_c: u32 = c.into();
    assert_eq!(raw_c, 7);
}

#[test]
fn zero_mask_decodes_to_empty_filter() {
    let universe = [CrtcHandle(1), CrtcHandle(2), CrtcHandle(3)];
    let f = ResourceFilter::decode(0, &universe);
    assert!(f.is_empty());
    for c in universe {
        assert!(!f.contains(&c));
    }
}

#[test]
fn set_bits_select_universe_entries() {
    let universe = [Handle(10), Handle(20), Handle(30), Handle(40)];
    let f = ResourceFilter::decode(0b1010, &universe);
    assert!(!f.is_empty());
    assert!(!f.contains(&Handle(10)));
    assert!(f.contains(&Handle(20)));
    assert!(!f.contains(&Handle(30)));
    assert!(f.contains(&Handle(40)));
    assert!(!f.contains(&Handle(50)));
}

#[test]
fn bits_beyond_universe_are_ignored() {
    let universe = [Handle(10), Handle(20)];
    let f = ResourceFilter::decode(0xFFFF_FFFC, &universe);
    assert!(f.is_empty());
    let g = ResourceFilter::decode(u32::MAX, &universe);
    assert!(g.contains(&Handle(10)));
    assert!(g.contains(&Handle(20)));
    let empty: [Handle; 0] = [];
    assert!(ResourceFilter::decode(u32::MAX, &empty).is_empty());
}

#[test]
fn highest_bit_selects_thirty_second_entry() {
    let universe: Vec<Handle> = (0..40u32).map(Handle).collect();
    let f = ResourceFilter::decode(0x8000_0000, &universe);
    assert!(f.contains(&Handle(31)));
    assert!(!f.contains(&Handle(30)));
    assert!(!f.contains(&Handle(32)));
}

#[test]
fn zero_crtc_id_means_unbound() {
    let info = Info::from_raw(1, 1, 0, 0, 0);
    assert_eq!(info.crtc(), None);
}

#[test]
fn nonzero_crtc_id_is_bound() {
    let info = Info::from_raw(1, 1, 55, 0, 0);
    assert_eq!(info.crtc(), Some(CrtcHandle(55)));
    let top = Info::from_raw(1, 1, u32::MAX, 0, 0);
    assert_eq!(top.crtc(), Some(CrtcHandle(u32::MAX)));
}

#[test]
fn info_reports_unknown_kind_for_unassigned_code() {
    let info = Info::from_raw(3, 77, 0, 0, 0);
    assert_eq!(info.kind(), Kind::Unknown);
    assert_eq!(info.handle(), Handle(3));
}

#[test]
fn tmds_encoder_end_to_end() {
    let info = Info::from_raw(7, DRM_MODE_ENCODER_TMDS, 0, 0b0101, 0b0010);
    assert_eq!(info.handle(), Handle(7));
    assert_eq!(info.kind(), Kind::TMDS);
    assert_eq!(info.crtc(), None);

    let (c0, c1, c2) = (CrtcHandle(100), CrtcHandle(101), CrtcHandle(102));
    let crtcs = info.possible_crtcs(&[c0, c1, c2]);
    assert!(crtcs.contains(&c0));
    assert!(!crtcs.contains(&c1));
    assert!(crtcs.contains(&c2));

    let (e0, e1, e2) = (Handle(7), Handle(8), Handle(9));
    let clones = info.possible_clones(&[e0, e1, e2]);
    assert!(!clones.contains(&e0));
    assert!(clones.contains(&e1));
    assert!(!clones.contains(&e2));
}

#[test]
fn clones_may_include_the_encoder_itself() {
    let info = Info::from_raw(8, DRM_MODE_ENCODER_TMDS, 4, 0, 0b0010);
    let clones = info.possible_clones(&[Handle(7), Handle(8)]);
    assert!(clones.contains(&info.handle()));
}
