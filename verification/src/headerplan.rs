use vstd::prelude::*;

use crate::action::Action;
use crate::action::ActionV;
use crate::action::push_copy;
use crate::action::push_copy_dir;
use crate::action::push_make_dir_all;
use crate::action::push_patch;
use crate::action::push_record_version;
use crate::action::push_remove_dir_all;
use crate::action::views_of;
use crate::chip::Chip;
use crate::chip::bt_header_chip;
use crate::chip::has_bt_cfg_header;
use crate::chip::has_bt_headers;
use crate::chip::spec_chip_name;
use crate::strutil::concat2;
use crate::strutil::concat3;
use crate::strutil::concat4;

verus! {

/// The per-chip directory that receives the chip-specific headers.
pub open spec fn spec_header_dir(c: Chip) -> Seq<char> {
    "./include/"@ + spec_chip_name(c) + "/"@
}

/// A destination inside the per-chip header directory.
pub open spec fn spec_header_dst(c: Chip, file: Seq<char>) -> Seq<char> {
    spec_header_dir(c) + file
}

fn header_dir(c: Chip) -> (r: String)
    ensures
        r@ == spec_header_dir(c),
{
    concat3("./include/", c.name(), "/")
}

fn header_dst(c: Chip, file: &str) -> (r: String)
    ensures
        r@ == spec_header_dst(c, file@),
{
    concat4("./include/", c.name(), "/", file)
}

/// Recreate the per-chip header directory from scratch.
pub open spec fn spec_header_setup_actions(c: Chip) -> Seq<ActionV> {
    seq![
        ActionV::RemoveDirAll { path: spec_header_dir(c) },
        ActionV::MakeDirAll { path: spec_header_dir(c) },
    ]
}

/// The chip-specific physical-layer headers.
pub open spec fn spec_phy_header_actions(c: Chip, idf: Seq<char>) -> Seq<ActionV> {
    seq![
        ActionV::CopyDirFiles {
            from: idf + "/components/esp_phy/"@ + spec_chip_name(c) + "/include"@,
            to: spec_header_dir(c),
        },
    ]
}

/// The chip-specific Bluetooth headers; one variant has none, and one
/// newer variant reuses an older variant's header directory.
pub open spec fn spec_bt_header_actions(c: Chip, idf: Seq<char>) -> Seq<ActionV> {
    if has_bt_headers(c) {
        seq![
            ActionV::CopyDirFiles {
                from: idf + "/components/bt/include/"@ + spec_chip_name(bt_header_chip(c))
                    + "/include"@,
                to: spec_header_dir(c),
            },
        ]
    } else {
        Seq::<ActionV>::empty()
    }
}

/// The generated configuration header out of the helper build.
pub open spec fn spec_sdkconfig_header_actions(c: Chip) -> Seq<ActionV> {
    seq![
        ActionV::CopyFile {
            from: "./helper_project/build/config/sdkconfig.h"@,
            to: spec_header_dst(c, "/sdkconfig.h"@),
        },
    ]
}

/// Patches to the copied Bluetooth header: strip the task header it pulls
/// in and disable a relative controller path that no longer resolves.
pub open spec fn spec_bt_header_patch_actions(c: Chip) -> Seq<ActionV> {
    if has_bt_headers(c) {
        seq![
            ActionV::PatchFile {
                path: spec_header_dst(c, "/esp_bt.h"@),
                search: "#include \"esp_task.h\""@,
                replace: ""@,
            },
            ActionV::PatchFile {
                path: spec_header_dst(c, "/esp_bt.h"@),
                search: "#include \"../../../../controller/"@,
                replace: "//#include \"../../../../controller/"@,
            },
        ]
    } else {
        Seq::<ActionV>::empty()
    }
}

/// The standalone Bluetooth controller configuration header of the
/// newest variants.
pub open spec fn spec_bt_cfg_actions(c: Chip, idf: Seq<char>) -> Seq<ActionV> {
    if has_bt_cfg_header(c) {
        seq![
            ActionV::CopyFile {
                from: idf + "/components/bt/controller/"@ + spec_chip_name(c) + "/esp_bt_cfg.h"@,
                to: spec_header_dst(c, "/esp_bt_cfg.h"@),
            },
        ]
    } else {
        Seq::<ActionV>::empty()
    }
}

/// The whole chip-specific header collection and patch step.
pub open spec fn spec_header_actions(c: Chip, idf: Seq<char>) -> Seq<ActionV> {
    spec_header_setup_actions(c) + spec_phy_header_actions(c, idf) + spec_bt_header_actions(
        c,
        idf,
    ) + spec_sdkconfig_header_actions(c) + spec_bt_header_patch_actions(c) + spec_bt_cfg_actions(
        c,
        idf,
    )
}

fn push_bt_header_actions(plan: &mut Vec<Action>, c: Chip, idf: &str)
    ensures
        views_of(final(plan)@) == views_of(old(plan)@) + spec_bt_header_actions(c, idf@),
{
    if c != Chip::Esp32s2 {
        let src_chip = if c == Chip::Esp32s3 {
            Chip::Esp32c3
        } else {
            c
        };
        let from = concat4(idf, "/components/bt/include/", src_chip.name(), "/include");
        push_copy_dir(plan, from, header_dir(c));
    } else {
        proof {
            assert(views_of(plan@) =~= views_of(old(plan)@) + spec_bt_header_actions(c, idf@));
        }
    }
}

fn push_bt_header_patch_actions(plan: &mut Vec<Action>, c: Chip)
    ensures
        views_of(final(plan)@) == views_of(old(plan)@) + spec_bt_header_patch_actions(c),
{
    if c != Chip::Esp32s2 {
        push_patch(
            plan,
            header_dst(c, "/esp_bt.h"),
            String::from_str("#include \"esp_task.h\""),
            String::new(),
        );
        push_patch(
            plan,
            header_dst(c, "/esp_bt.h"),
            String::from_str("#include \"../../../../controller/"),
            String::from_str("//#include \"../../../../controller/"),
        );
        proof {
            reveal_strlit("");
            assert(""@ =~= Seq::<char>::empty());
        }
    }
    proof {
        assert(views_of(plan@) =~= views_of(old(plan)@) + spec_bt_header_patch_actions(c));
    }
}

fn push_bt_cfg_actions(plan: &mut Vec<Action>, c: Chip, idf: &str)
    ensures
        views_of(final(plan)@) == views_of(old(plan)@) + spec_bt_cfg_actions(c, idf@),
{
    if c == Chip::Esp32c2 || c == Chip::Esp32c6 || c == Chip::Esp32h2 {
        let from = concat4(idf, "/components/bt/controller/", c.name(), "/esp_bt_cfg.h");
        push_copy(plan, from, header_dst(c, "/esp_bt_cfg.h"));
    } else {
        proof {
            assert(views_of(plan@) =~= views_of(old(plan)@) + spec_bt_cfg_actions(c, idf@));
        }
    }
}

/// Append the whole chip-specific header step for one chip.
pub(crate) fn push_header_actions(plan: &mut Vec<Action>, c: Chip, idf: &str)
    ensures
        views_of(final(plan)@) == views_of(old(plan)@) + spec_header_actions(c, idf@),
{
    push_remove_dir_all(plan, header_dir(c));
    push_make_dir_all(plan, header_dir(c));
    let phy_from = concat4(idf, "/components/esp_phy/", c.name(), "/include");
    push_copy_dir(plan, phy_from, header_dir(c));
    push_bt_header_actions(plan, c, idf);
    push_copy(
        plan,
        String::from_str("./helper_project/build/config/sdkconfig.h"),
        header_dst(c, "/sdkconfig.h"),
    );
    push_bt_header_patch_actions(plan, c);
    push_bt_cfg_actions(plan, c, idf);
    proof {
        assert(views_of(plan@) =~= views_of(old(plan)@) + spec_header_actions(c, idf@));
    }
}

/// One chip-independent directory-contents copy into the shared header
/// directory tree.
pub open spec fn spec_shared_dir_copy(idf: Seq<char>, rel: Seq<char>, to: Seq<char>) -> ActionV {
    ActionV::CopyDirFiles { from: idf + rel, to }
}

/// One chip-independent single-file copy into the shared header directory.
pub open spec fn spec_shared_file_copy(idf: Seq<char>, rel: Seq<char>, to: Seq<char>) -> ActionV {
    ActionV::CopyFile { from: idf + rel, to }
}

/// The chip-independent header copies, in the order they are performed.
pub open spec fn spec_global_copy_actions(idf: Seq<char>) -> Seq<ActionV> {
    seq![
        spec_shared_dir_copy(idf, "/components/wpa_supplicant/esp_supplicant/include"@, "./include"@),
        spec_shared_dir_copy(idf, "/components/esp_phy/include"@, "./include"@),
        spec_shared_dir_copy(idf, "/components/esp_phy/include/esp_private"@, "./include"@),
        spec_shared_dir_copy(idf, "/components/esp_coex/include"@, "./include"@),
        spec_shared_dir_copy(idf, "/components/esp_wifi/include"@, "./include"@),
        spec_shared_dir_copy(idf, "/components/esp_wifi/include/esp_private"@, "./include/esp_private"@),
        spec_shared_dir_copy(idf, "/components/esp_wifi/include/local"@, "./include/local"@),
        spec_shared_dir_copy(idf, "/components/esp_coex/include/private"@, "./include"@),
        spec_shared_dir_copy(idf, "/components/esp_timer/include"@, "./include"@),
        spec_shared_dir_copy(idf, "/components/esp_system/include"@, "./include"@),
        spec_shared_dir_copy(idf, "/components/esp_event/include"@, "./include"@),
        spec_shared_dir_copy(idf, "/components/nvs_flash/include"@, "./include"@),
        spec_shared_file_copy(idf, "/components/esp_common/include/esp_err.h"@, "./include/esp_err.h"@),
        spec_shared_file_copy(idf, "/components/esp_common/include/esp_compiler.h"@, "./include/esp_compiler.h"@),
        spec_shared_file_copy(idf, "/components/esp_hw_support/include/esp_interface.h"@, "./include/esp_interface.h"@),
    ]
}

/// One patch of a shared header.
pub open spec fn spec_shared_patch(
    path: Seq<char>,
    search: Seq<char>,
    replace: Seq<char>,
) -> ActionV {
    ActionV::PatchFile { path, search, replace }
}

/// The patches applied to the shared headers: strip the real-time-OS
/// includes and references that do not resolve outside the original
/// build tree.
pub open spec fn spec_global_patch_actions() -> Seq<ActionV> {
    seq![
        spec_shared_patch("./include/esp_coexist_internal.h"@, "private/"@, ""@),
        spec_shared_patch("./include/esp_event.h"@, "#include \"freertos/FreeRTOS.h\""@, ""@),
        spec_shared_patch("./include/esp_event.h"@, "#include \"freertos/task.h\""@, ""@),
        spec_shared_patch("./include/esp_event.h"@, "#include \"freertos/queue.h\""@, ""@),
        spec_shared_patch("./include/esp_event.h"@, "#include \"freertos/semphr.h\""@, ""@),
        spec_shared_patch("./include/esp_system.h"@, "#include \"esp_attr.h\""@, ""@),
        spec_shared_patch("./include/esp_system.h"@, "#include \"esp_bit_defs.h\""@, ""@),
        spec_shared_patch("./include/esp_system.h"@, "#include \"esp_idf_version.h\""@, ""@),
        spec_shared_patch("./include/nvs.h"@, "#include \"esp_attr.h\""@, ""@),
        spec_shared_patch(
            "./include/esp_private/esp_wifi_private.h"@,
            "#include \"freertos/FreeRTOS.h\""@,
            ""@,
        ),
        spec_shared_patch(
            "./include/esp_private/esp_wifi_private.h"@,
            "#include \"freertos/queue.h\""@,
            ""@,
        ),
        spec_shared_patch("./include/esp_private/wifi.h"@, "#include \"freertos/FreeRTOS.h\""@, ""@),
        spec_shared_patch("./include/esp_private/wifi.h"@, "#include \"freertos/queue.h\""@, ""@),
        spec_shared_patch("./include/esp_task.h"@, "#include \"freertos/FreeRTOS.h\""@, ""@),
        spec_shared_patch("./include/esp_task.h"@, "#include \"freertos/FreeRTOSConfig.h\""@, ""@),
    ]
}

/// The version stamp: the marker file records the SDK version used by the
/// most recent successful full run.
pub open spec fn spec_version_actions() -> Seq<ActionV> {
    seq![ActionV::RecordVersion { path: "version"@ }]
}

/// The chip-independent tail of a run: shared headers, their patches, and
/// the version stamp.
pub open spec fn spec_global_actions(idf: Seq<char>) -> Seq<ActionV> {
    spec_global_copy_actions(idf) + spec_global_patch_actions() + spec_version_actions()
}

fn push_shared_dir_copy(plan: &mut Vec<Action>, idf: &str, rel: &str, to: &str)
    ensures
        views_of(final(plan)@) == views_of(old(plan)@) + seq![
            spec_shared_dir_copy(idf@, rel@, to@),
        ],
{
    push_copy_dir(plan, concat2(idf, rel), String::from_str(to));
}

fn push_shared_file_copy(plan: &mut Vec<Action>, idf: &str, rel: &str, to: &str)
    ensures
        views_of(final(plan)@) == views_of(old(plan)@) + seq![
            spec_shared_file_copy(idf@, rel@, to@),
        ],
{
    push_copy(plan, concat2(idf, rel), String::from_str(to));
}

fn push_shared_patch(plan: &mut Vec<Action>, path: &str, search: &str, replace: &str)
    ensures
        views_of(final(plan)@) == views_of(old(plan)@) + seq![
            spec_shared_patch(path@, search@, replace@),
        ],
{
    push_patch(
        plan,
        String::from_str(path),
        String::from_str(search),
        String::from_str(replace),
    );
}

/// Append the chip-independent tail of a run.
pub(crate) fn push_global_actions(plan: &mut Vec<Action>, idf: &str)
    ensures
        views_of(final(plan)@) == views_of(old(plan)@) + spec_global_actions(idf@),
{
    push_shared_dir_copy(plan, idf, "/components/wpa_supplicant/esp_supplicant/include", "./include");
    push_shared_dir_copy(plan, idf, "/components/esp_phy/include", "./include");
    push_shared_dir_copy(plan, idf, "/components/esp_phy/include/esp_private", "./include");
    push_shared_dir_copy(plan, idf, "/components/esp_coex/include", "./include");
    push_shared_dir_copy(plan, idf, "/components/esp_wifi/include", "./include");
    push_shared_dir_copy(plan, idf, "/components/esp_wifi/include/esp_private", "./include/esp_private");
    push_shared_dir_copy(plan, idf, "/components/esp_wifi/include/local", "./include/local");
    push_shared_dir_copy(plan, idf, "/components/esp_coex/include/private", "./include");
    push_shared_dir_copy(plan, idf, "/components/esp_timer/include", "./include");
    push_shared_dir_copy(plan, idf, "/components/esp_system/include", "./include");
    push_shared_dir_copy(plan, idf, "/components/esp_event/include", "./include");
    push_shared_dir_copy(plan, idf, "/components/nvs_flash/include", "./include");
    push_shared_file_copy(plan, idf, "/components/esp_common/include/esp_err.h", "./include/esp_err.h");
    push_shared_file_copy(plan, idf, "/components/esp_common/include/esp_compiler.h", "./include/esp_compiler.h");
    push_shared_file_copy(plan, idf, "/components/esp_hw_support/include/esp_interface.h", "./include/esp_interface.h");
    push_shared_patch(plan, "./include/esp_coexist_internal.h", "private/", "");
    push_shared_patch(plan, "./include/esp_event.h", "#include \"freertos/FreeRTOS.h\"", "");
    push_shared_patch(plan, "./include/esp_event.h", "#include \"freertos/task.h\"", "");
    push_shared_patch(plan, "./include/esp_event.h", "#include \"freertos/queue.h\"", "");
    push_shared_patch(plan, "./include/esp_event.h", "#include \"freertos/semphr.h\"", "");
    push_shared_patch(plan, "./include/esp_system.h", "#include \"esp_attr.h\"", "");
    push_shared_patch(plan, "./include/esp_system.h", "#include \"esp_bit_defs.h\"", "");
    push_shared_patch(plan, "./include/esp_system.h", "#include \"esp_idf_version.h\"", "");
    push_shared_patch(plan, "./include/nvs.h", "#include \"esp_attr.h\"", "");
    push_shared_patch(plan, "./include/esp_private/esp_wifi_private.h", "#include \"freertos/FreeRTOS.h\"", "");
    push_shared_patch(plan, "./include/esp_private/esp_wifi_private.h", "#include \"freertos/queue.h\"", "");
    push_shared_patch(plan, "./include/esp_private/wifi.h", "#include \"freertos/FreeRTOS.h\"", "");
    push_shared_patch(plan, "./include/esp_private/wifi.h", "#include \"freertos/queue.h\"", "");
    push_shared_patch(plan, "./include/esp_task.h", "#include \"freertos/FreeRTOS.h\"", "");
    push_shared_patch(plan, "./include/esp_task.h", "#include \"freertos/FreeRTOSConfig.h\"", "");
    push_record_version(plan, String::from_str("version"));
    proof {
        assert(views_of(plan@) =~= views_of(old(plan)@) + spec_global_actions(idf@));
    }
}

} // verus!
