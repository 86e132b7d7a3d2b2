use navier_stokes_vulkan::grid::{field_len, workgroup_count, Extent, DYE_SCALE, SIM_BASE, WORKGROUP};

#[test]
fn workgroups_cover_the_default_grid() {
    // 410 x 256 cells: 52 x 32 workgroups of 8 x 8.
    assert_eq!(workgroup_count(410), 52);
    assert_eq!(workgroup_count(256), 32);
    assert_eq!(workgroup_count(820), 103);
    assert_eq!(workgroup_count(512), 64);
}

#[test]
fn workgroups_edge_cases() {
    assert_eq!(workgroup_count(0), 0);
    assert_eq!(workgroup_count(1), 1);
    assert_eq!(workgroup_count(8), 1);
    assert_eq!(workgroup_count(9), 2);
    assert_eq!(workgroup_count(u32::MAX), 536_870_912);
}

#[test]
fn workgroups_cover_minimally() {
    for n in 0u32..200 {
        let g = workgroup_count(n);
        assert!(g * WORKGROUP >= n);
        assert!(g == 0 || (g - 1) * WORKGROUP < n);
    }
}

#[test]
fn constants() {
    assert_eq!(SIM_BASE, 256);
    assert_eq!(DYE_SCALE, 2);
    assert_eq!(WORKGROUP, 8);
}

#[test]
fn readback_lengths() {
    let sim = Extent { width: 410, height: 256 };
    let dye = Extent { width: 820, height: 512 };
    assert_eq!(field_len(sim, 1), Some(104_960));
    assert_eq!(field_len(dye, 4), Some(1_679_360));
    assert_eq!(field_len(Extent { width: 1280, height: 800 }, 4), Some(4_096_000));
}

#[test]
fn readback_length_overflow() {
    assert_eq!(field_len(Extent { width: 65_536, height: 65_536 }, 1), None);
    assert_eq!(field_len(Extent { width: 65_536, height: 65_536 }, 0), None);
    assert_eq!(field_len(Extent { width: 65_536, height: 32_768 }, 2), None);
    assert_eq!(field_len(Extent { width: 65_536, height: 32_768 }, 1), Some(2_147_483_648));
}
