use xtask::action::Action;
use xtask::chip::{default_chips, Chip};
use xtask::orchestrate::target_plan;

fn copy_destinations(plan: &[Action]) -> Vec<String> {
    let mut dests = Vec::new();
    for action in plan {
        if let Action::CopyFile { to, .. } = action {
            dests.push(to.clone());
        }
    }
    dests
}

#[test]
fn every_chip_gets_phy_and_coexist_blobs() {
    for chip in default_chips() {
        let plan = target_plan(chip, "/sdk");
        let dests = copy_destinations(&plan);
        assert!(
            dests.iter().any(|d| d.ends_with("/libphy.a")),
            "{} lacks the physical-layer blob",
            chip.name()
        );
        assert!(
            dests.iter().any(|d| d.ends_with("/libcoexist.a")),
            "{} lacks the coexistence blob",
            chip.name()
        );
    }
}

#[test]
fn bt_controller_lookup_selects_exactly_one_blob() {
    for chip in default_chips() {
        let plan = target_plan(chip, "/sdk");
        let dests = copy_destinations(&plan);
        let controller_copies = dests
            .iter()
            .filter(|d| d.ends_with("/libbtdm_app.a") || d.ends_with("/libble_app.a"))
            .count();
        let expected = if chip == Chip::Esp32s2 { 0 } else { 1 };
        assert_eq!(controller_copies, expected, "chip {}", chip.name());
    }
}

#[test]
fn excluded_variant_requests_no_wifi_artifacts() {
    let plan = target_plan(Chip::Esp32h2, "/sdk");
    let dests = copy_destinations(&plan);
    let wifi_names = [
        "/libwpa_supplicant.a",
        "/libcore.a",
        "/libpp.a",
        "/libespnow.a",
        "/libmesh.a",
        "/libnet80211.a",
        "/libsmartconfig.a",
        "/libwapi.a",
    ];
    for name in wifi_names {
        assert!(
            !dests.iter().any(|d| d.ends_with(name)),
            "esp32h2 must not request {}",
            name
        );
    }
}

#[test]
fn low_end_variant_skips_mesh_and_wapi_only() {
    let plan = target_plan(Chip::Esp32c2, "/sdk");
    let dests = copy_destinations(&plan);
    assert!(!dests.iter().any(|d| d.ends_with("/libmesh.a")));
    assert!(!dests.iter().any(|d| d.ends_with("/libwapi.a")));
    assert!(dests.iter().any(|d| d.ends_with("/libcore.a")));
    assert!(dests.iter().any(|d| d.ends_with("/libpp.a")));
    assert!(dests.iter().any(|d| d.ends_with("/libespnow.a")));
    assert!(dests.iter().any(|d| d.ends_with("/libnet80211.a")));
    assert!(dests.iter().any(|d| d.ends_with("/libsmartconfig.a")));
}

#[test]
fn bt_baseband_blob_skipped_only_for_the_two_earliest_chips() {
    for chip in default_chips() {
        let plan = target_plan(chip, "/sdk");
        let dests = copy_destinations(&plan);
        let has_btbb = dests.iter().any(|d| d.ends_with("/libbtbb.a"));
        let expected = chip != Chip::Esp32 && chip != Chip::Esp32s2;
        assert_eq!(has_btbb, expected, "chip {}", chip.name());
    }
}

#[test]
fn only_the_reference_chip_gets_the_rtc_blob() {
    for chip in default_chips() {
        let plan = target_plan(chip, "/sdk");
        let dests = copy_destinations(&plan);
        let has_rtc = dests.iter().any(|d| d.ends_with("/librtc.a"));
        assert_eq!(has_rtc, chip == Chip::Esp32, "chip {}", chip.name());
    }
}

#[test]
fn reused_bt_header_directory_for_the_s3_variant() {
    let plan = target_plan(Chip::Esp32s3, "/sdk");
    let mut found = false;
    for action in &plan {
        if let Action::CopyDirFiles { from, to } = action {
            if from == "/sdk/components/bt/include/esp32c3/include" {
                assert_eq!(to, "./include/esp32s3/");
                found = true;
            }
        }
    }
    assert!(found, "esp32s3 must reuse the esp32c3 Bluetooth headers");
}

#[test]
fn headerless_variant_gets_no_bt_headers_and_no_bt_patches() {
    let plan = target_plan(Chip::Esp32s2, "/sdk");
    for action in &plan {
        match action {
            Action::CopyDirFiles { from, .. } => {
                assert!(!from.contains("/components/bt/"));
            }
            Action::PatchFile { .. } => {
                panic!("esp32s2 headers need no patching");
            }
            _ => {}
        }
    }
}

#[test]
fn full_pipeline_for_one_chip() {
    let plan = target_plan(Chip::Esp32c6, "/sdk");
    let s = |t: &str| t.to_string();
    let expected = vec![
        Action::RemoveDirAll { path: s("./helper_project/build") },
        Action::RemoveFile { path: s("./helper_project/sdkconfig") },
        Action::RemoveFile { path: s("./helper_project/sdkconfig.defaults") },
        Action::RemoveFile { path: s("./helper_project/sdkconfig.old") },
        Action::CopyFile {
            from: s("./patch/esp32c6/sdkconfig.defaults"),
            to: s("./helper_project/sdkconfig.defaults"),
        },
        Action::RunBuilder { project_dir: s("helper_project"), target: Chip::Esp32c6 },
        Action::RemoveDirAll { path: s("./libs/esp32c6/") },
        Action::MakeDirAll { path: s("./libs/esp32c6/") },
        Action::CopyFile {
            from: s("./helper_project/build/esp-idf/main/libprintf.a"),
            to: s("./libs/esp32c6//libprintf.a"),
        },
        Action::CopyFile {
            from: s("./helper_project/build/esp-idf/wpa_supplicant/libwpa_supplicant.a"),
            to: s("./libs/esp32c6//libwpa_supplicant.a"),
        },
        Action::CopyFile {
            from: s("/sdk/components/esp_phy/lib/esp32c6/libphy.a"),
            to: s("./libs/esp32c6//libphy.a"),
        },
        Action::CopyFile {
            from: s("/sdk/components/esp_phy/lib/esp32c6/libbtbb.a"),
            to: s("./libs/esp32c6//libbtbb.a"),
        },
        Action::CopyFile {
            from: s("/sdk/components/esp_wifi/lib/esp32c6/libcore.a"),
            to: s("./libs/esp32c6//libcore.a"),
        },
        Action::CopyFile {
            from: s("/sdk/components/esp_wifi/lib/esp32c6/libpp.a"),
            to: s("./libs/esp32c6//libpp.a"),
        },
        Action::CopyFile {
            from: s("/sdk/components/esp_wifi/lib/esp32c6/libespnow.a"),
            to: s("./libs/esp32c6//libespnow.a"),
        },
        Action::CopyFile {
            from: s("/sdk/components/esp_wifi/lib/esp32c6/libmesh.a"),
            to: s("./libs/esp32c6//libmesh.a"),
        },
        Action::CopyFile {
            from: s("/sdk/components/esp_wifi/lib/esp32c6/libnet80211.a"),
            to: s("./libs/esp32c6//libnet80211.a"),
        },
        Action::CopyFile {
            from: s("/sdk/components/esp_wifi/lib/esp32c6/libsmartconfig.a"),
            to: s("./libs/esp32c6//libsmartconfig.a"),
        },
        Action::CopyFile {
            from: s("/sdk/components/esp_wifi/lib/esp32c6/libwapi.a"),
            to: s("./libs/esp32c6//libwapi.a"),
        },
        Action::CopyFile {
            from: s("/sdk/components/esp_coex/lib/esp32c6/libcoexist.a"),
            to: s("./libs/esp32c6//libcoexist.a"),
        },
        Action::CopyFile {
            from: s("/sdk/components/bt/controller/lib_esp32c6/esp32c6-bt-lib/libble_app.a"),
            to: s("./libs/esp32c6//libble_app.a"),
        },
        Action::RemoveDirAll { path: s("./include/esp32c6/") },
        Action::MakeDirAll { path: s("./include/esp32c6/") },
        Action::CopyDirFiles {
            from: s("/sdk/components/esp_phy/esp32c6/include"),
            to: s("./include/esp32c6/"),
        },
        Action::CopyDirFiles {
            from: s("/sdk/components/bt/include/esp32c6/include"),
            to: s("./include/esp32c6/"),
        },
        Action::CopyFile {
            from: s("./helper_project/build/config/sdkconfig.h"),
            to: s("./include/esp32c6//sdkconfig.h"),
        },
        Action::PatchFile {
            path: s("./include/esp32c6//esp_bt.h"),
            search: s("#include \"esp_task.h\""),
            replace: s(""),
        },
        Action::PatchFile {
            path: s("./include/esp32c6//esp_bt.h"),
            search: s("#include \"../../../../controller/"),
            replace: s("//#include \"../../../../controller/"),
        },
        Action::CopyFile {
            from: s("/sdk/components/bt/controller/esp32c6/esp_bt_cfg.h"),
            to: s("./include/esp32c6//esp_bt_cfg.h"),
        },
    ];
    assert_eq!(plan.len(), expected.len());
    for (i, (got, want)) in plan.iter().zip(expected.iter()).enumerate() {
        assert_eq!(got, want, "action {} differs", i);
    }
}
