use vstd::prelude::*;

use crate::action::Action;
use crate::action::ActionV;
use crate::action::push_copy;
use crate::action::push_make_dir_all;
use crate::action::push_remove_dir_all;
use crate::action::views_of;
use crate::chip::Chip;
use crate::chip::has_bt_baseband;
use crate::chip::has_full_wifi;
use crate::chip::has_mesh_and_wapi;
use crate::chip::has_rtc_blob;
use crate::chip::spec_chip_name;
use crate::strutil::concat2;
use crate::strutil::concat4;

verus! {

/// The per-chip directory that receives the collected static libraries.
pub open spec fn spec_lib_dir(c: Chip) -> Seq<char> {
    "./libs/"@ + spec_chip_name(c) + "/"@
}

/// A destination inside the per-chip library directory.
pub open spec fn spec_lib_dst(c: Chip, file: Seq<char>) -> Seq<char> {
    spec_lib_dir(c) + file
}

fn lib_dir(c: Chip) -> (r: String)
    ensures
        r@ == spec_lib_dir(c),
{
    crate::strutil::concat3("./libs/", c.name(), "/")
}

fn lib_dst(c: Chip, file: &str) -> (r: String)
    ensures
        r@ == spec_lib_dst(c, file@),
{
    concat4("./libs/", c.name(), "/", file)
}

/// Recreate the per-chip library directory from scratch.
pub open spec fn spec_lib_setup_actions(c: Chip) -> Seq<ActionV> {
    seq![
        ActionV::RemoveDirAll { path: spec_lib_dir(c) },
        ActionV::MakeDirAll { path: spec_lib_dir(c) },
    ]
}

/// The utility library produced by the just-completed helper build.
pub open spec fn spec_printf_actions(c: Chip) -> Seq<ActionV> {
    seq![
        ActionV::CopyFile {
            from: "./helper_project/build/esp-idf/main/libprintf.a"@,
            to: spec_lib_dst(c, "/libprintf.a"@),
        },
    ]
}

/// The just-built networking supplicant, skipped for the one chip
/// without the full WiFi stack.
pub open spec fn spec_supplicant_actions(c: Chip) -> Seq<ActionV> {
    if has_full_wifi(c) {
        seq![
            ActionV::CopyFile {
                from: "./helper_project/build/esp-idf/wpa_supplicant/libwpa_supplicant.a"@,
                to: spec_lib_dst(c, "/libwpa_supplicant.a"@),
            },
        ]
    } else {
        Seq::<ActionV>::empty()
    }
}

/// The radio-physical-layer vendor blob, collected for every chip.
pub open spec fn spec_phy_copy(c: Chip, idf: Seq<char>) -> ActionV {
    ActionV::CopyFile {
        from: idf + "/components/esp_phy/lib/"@ + spec_chip_name(c) + "/libphy.a"@,
        to: spec_lib_dst(c, "/libphy.a"@),
    }
}

pub open spec fn spec_phy_actions(c: Chip, idf: Seq<char>) -> Seq<ActionV> {
    seq![spec_phy_copy(c, idf)]
}

/// The secondary radio-control blob, shipped only by the reference chip.
pub open spec fn spec_rtc_actions(c: Chip, idf: Seq<char>) -> Seq<ActionV> {
    if has_rtc_blob(c) {
        seq![
            ActionV::CopyFile {
                from: idf + "/components/esp_phy/lib/"@ + spec_chip_name(c) + "/librtc.a"@,
                to: spec_lib_dst(c, "/librtc.a"@),
            },
        ]
    } else {
        Seq::<ActionV>::empty()
    }
}

/// The Bluetooth-baseband blob, absent on the two earliest variants.
pub open spec fn spec_btbb_actions(c: Chip, idf: Seq<char>) -> Seq<ActionV> {
    if has_bt_baseband(c) {
        seq![
            ActionV::CopyFile {
                from: idf + "/components/esp_phy/lib/"@ + spec_chip_name(c) + "/libbtbb.a"@,
                to: spec_lib_dst(c, "/libbtbb.a"@),
            },
        ]
    } else {
        Seq::<ActionV>::empty()
    }
}

/// One WiFi vendor blob copy.
pub open spec fn spec_wifi_copy(c: Chip, idf: Seq<char>, file: Seq<char>) -> ActionV {
    ActionV::CopyFile {
        from: idf + "/components/esp_wifi/lib/"@ + spec_chip_name(c) + file,
        to: spec_lib_dst(c, file),
    }
}

/// The WiFi vendor blobs: all seven for most chips, five for the one
/// low-end variant without mesh and WAPI, none for the chip without the
/// full WiFi stack.
pub open spec fn spec_wifi_actions(c: Chip, idf: Seq<char>) -> Seq<ActionV> {
    if has_full_wifi(c) {
        seq![
            spec_wifi_copy(c, idf, "/libcore.a"@),
            spec_wifi_copy(c, idf, "/libpp.a"@),
            spec_wifi_copy(c, idf, "/libespnow.a"@),
        ] + (if has_mesh_and_wapi(c) {
            seq![spec_wifi_copy(c, idf, "/libmesh.a"@)]
        } else {
            Seq::<ActionV>::empty()
        }) + seq![
            spec_wifi_copy(c, idf, "/libnet80211.a"@),
            spec_wifi_copy(c, idf, "/libsmartconfig.a"@),
        ] + (if has_mesh_and_wapi(c) {
            seq![spec_wifi_copy(c, idf, "/libwapi.a"@)]
        } else {
            Seq::<ActionV>::empty()
        })
    } else {
        Seq::<ActionV>::empty()
    }
}

/// The coexistence-arbitration blob, collected for every chip.
pub open spec fn spec_coex_copy(c: Chip, idf: Seq<char>) -> ActionV {
    ActionV::CopyFile {
        from: idf + "/components/esp_coex/lib/"@ + spec_chip_name(c) + "/libcoexist.a"@,
        to: spec_lib_dst(c, "/libcoexist.a"@),
    }
}

pub open spec fn spec_coex_actions(c: Chip, idf: Seq<char>) -> Seq<ActionV> {
    seq![spec_coex_copy(c, idf)]
}

/// The Bluetooth-controller lookup table: the blob source for each chip,
/// relative to the SDK root; exactly one entry per chip, none only for
/// the variant that ships no controller blob.
pub open spec fn spec_bt_lib_rel_src(c: Chip) -> Option<Seq<char>> {
    match c {
        Chip::Esp32 => Some("/components/bt/controller/lib_esp32/esp32/libbtdm_app.a"@),
        Chip::Esp32s2 => None,
        Chip::Esp32s3 => Some(
            "/components/bt/controller/lib_esp32c3_family/esp32s3/libbtdm_app.a"@,
        ),
        Chip::Esp32c2 => Some("/components/bt/controller/lib_esp32c2/esp32c2-bt-lib/libble_app.a"@),
        Chip::Esp32c3 => Some(
            "/components/bt/controller/lib_esp32c3_family/esp32c3/libbtdm_app.a"@,
        ),
        Chip::Esp32c6 => Some("/components/bt/controller/lib_esp32c6/esp32c6-bt-lib/libble_app.a"@),
        Chip::Esp32h2 => Some("/components/bt/controller/lib_esp32h2/esp32h2-bt-lib/libble_app.a"@),
    }
}

/// The file name under which the selected controller blob is stored.
pub open spec fn spec_bt_lib_dst_name(c: Chip) -> Seq<char> {
    match c {
        Chip::Esp32 | Chip::Esp32s3 | Chip::Esp32c3 => "/libbtdm_app.a"@,
        _ => "/libble_app.a"@,
    }
}

pub open spec fn spec_bt_actions(c: Chip, idf: Seq<char>) -> Seq<ActionV> {
    match spec_bt_lib_rel_src(c) {
        Some(rel) => seq![
            ActionV::CopyFile { from: idf + rel, to: spec_lib_dst(c, spec_bt_lib_dst_name(c)) },
        ],
        None => Seq::<ActionV>::empty(),
    }
}

/// The whole static-library collection step for one chip.
pub open spec fn spec_lib_actions(c: Chip, idf: Seq<char>) -> Seq<ActionV> {
    spec_lib_setup_actions(c) + spec_printf_actions(c) + spec_supplicant_actions(c)
        + spec_phy_actions(c, idf) + spec_rtc_actions(c, idf) + spec_btbb_actions(c, idf)
        + spec_wifi_actions(c, idf) + spec_coex_actions(c, idf) + spec_bt_actions(c, idf)
}

fn push_supplicant_actions(plan: &mut Vec<Action>, c: Chip)
    ensures
        views_of(final(plan)@) == views_of(old(plan)@) + spec_supplicant_actions(c),
{
    if c != Chip::Esp32h2 {
        push_copy(
            plan,
            String::from_str("./helper_project/build/esp-idf/wpa_supplicant/libwpa_supplicant.a"),
            lib_dst(c, "/libwpa_supplicant.a"),
        );
    } else {
        proof {
            assert(views_of(plan@) =~= views_of(old(plan)@) + spec_supplicant_actions(c));
        }
    }
}

fn push_rtc_actions(plan: &mut Vec<Action>, c: Chip, idf: &str)
    ensures
        views_of(final(plan)@) == views_of(old(plan)@) + spec_rtc_actions(c, idf@),
{
    if c == Chip::Esp32 {
        let from = concat4(idf, "/components/esp_phy/lib/", c.name(), "/librtc.a");
        push_copy(plan, from, lib_dst(c, "/librtc.a"));
    } else {
        proof {
            assert(views_of(plan@) =~= views_of(old(plan)@) + spec_rtc_actions(c, idf@));
        }
    }
}

fn push_btbb_actions(plan: &mut Vec<Action>, c: Chip, idf: &str)
    ensures
        views_of(final(plan)@) == views_of(old(plan)@) + spec_btbb_actions(c, idf@),
{
    if c != Chip::Esp32 && c != Chip::Esp32s2 {
        let from = concat4(idf, "/components/esp_phy/lib/", c.name(), "/libbtbb.a");
        push_copy(plan, from, lib_dst(c, "/libbtbb.a"));
    } else {
        proof {
            assert(views_of(plan@) =~= views_of(old(plan)@) + spec_btbb_actions(c, idf@));
        }
    }
}

fn push_wifi_copy(plan: &mut Vec<Action>, c: Chip, idf: &str, file: &str)
    ensures
        views_of(final(plan)@) == views_of(old(plan)@) + seq![spec_wifi_copy(c, idf@, file@)],
{
    let from = concat4(idf, "/components/esp_wifi/lib/", c.name(), file);
    push_copy(plan, from, lib_dst(c, file));
}

fn push_wifi_actions(plan: &mut Vec<Action>, c: Chip, idf: &str)
    ensures
        views_of(final(plan)@) == views_of(old(plan)@) + spec_wifi_actions(c, idf@),
{
    if c != Chip::Esp32h2 {
        push_wifi_copy(plan, c, idf, "/libcore.a");
        push_wifi_copy(plan, c, idf, "/libpp.a");
        push_wifi_copy(plan, c, idf, "/libespnow.a");
        if c != Chip::Esp32c2 {
            push_wifi_copy(plan, c, idf, "/libmesh.a");
        }
        push_wifi_copy(plan, c, idf, "/libnet80211.a");
        push_wifi_copy(plan, c, idf, "/libsmartconfig.a");
        if c != Chip::Esp32c2 {
            push_wifi_copy(plan, c, idf, "/libwapi.a");
        }
    }
    proof {
        assert(views_of(plan@) =~= views_of(old(plan)@) + spec_wifi_actions(c, idf@));
    }
}

fn push_bt_actions(plan: &mut Vec<Action>, c: Chip, idf: &str)
    ensures
        views_of(final(plan)@) == views_of(old(plan)@) + spec_bt_actions(c, idf@),
{
    match c {
        Chip::Esp32 => {
            let from = concat2(idf, "/components/bt/controller/lib_esp32/esp32/libbtdm_app.a");
            push_copy(plan, from, lib_dst(c, "/libbtdm_app.a"));
        },
        Chip::Esp32s2 => {
            proof {
                assert(views_of(plan@) =~= views_of(old(plan)@) + spec_bt_actions(c, idf@));
            }
        },
        Chip::Esp32s3 => {
            let from = concat2(
                idf,
                "/components/bt/controller/lib_esp32c3_family/esp32s3/libbtdm_app.a",
            );
            push_copy(plan, from, lib_dst(c, "/libbtdm_app.a"));
        },
        Chip::Esp32c2 => {
            let from = concat2(
                idf,
                "/components/bt/controller/lib_esp32c2/esp32c2-bt-lib/libble_app.a",
            );
            push_copy(plan, from, lib_dst(c, "/libble_app.a"));
        },
        Chip::Esp32c3 => {
            let from = concat2(
                idf,
                "/components/bt/controller/lib_esp32c3_family/esp32c3/libbtdm_app.a",
            );
            push_copy(plan, from, lib_dst(c, "/libbtdm_app.a"));
        },
        Chip::Esp32c6 => {
            let from = concat2(
                idf,
                "/components/bt/controller/lib_esp32c6/esp32c6-bt-lib/libble_app.a",
            );
            push_copy(plan, from, lib_dst(c, "/libble_app.a"));
        },
        Chip::Esp32h2 => {
            let from = concat2(
                idf,
                "/components/bt/controller/lib_esp32h2/esp32h2-bt-lib/libble_app.a",
            );
            push_copy(plan, from, lib_dst(c, "/libble_app.a"));
        },
    }
}

/// Append the whole static-library collection step for one chip.
pub(crate) fn push_lib_actions(plan: &mut Vec<Action>, c: Chip, idf: &str)
    ensures
        views_of(final(plan)@) == views_of(old(plan)@) + spec_lib_actions(c, idf@),
{
    push_remove_dir_all(plan, lib_dir(c));
    push_make_dir_all(plan, lib_dir(c));
    push_copy(
        plan,
        String::from_str("./helper_project/build/esp-idf/main/libprintf.a"),
        lib_dst(c, "/libprintf.a"),
    );
    push_supplicant_actions(plan, c);
    let phy_from = concat4(idf, "/components/esp_phy/lib/", c.name(), "/libphy.a");
    push_copy(plan, phy_from, lib_dst(c, "/libphy.a"));
    push_rtc_actions(plan, c, idf);
    push_btbb_actions(plan, c, idf);
    push_wifi_actions(plan, c, idf);
    let coex_from = concat4(idf, "/components/esp_coex/lib/", c.name(), "/libcoexist.a");
    push_copy(plan, coex_from, lib_dst(c, "/libcoexist.a"));
    push_bt_actions(plan, c, idf);
    proof {
        assert(views_of(plan@) =~= views_of(old(plan)@) + spec_lib_actions(c, idf@));
    }
}

/// Law: the Bluetooth-controller lookup table covers the whole built-in
/// default list, and no chip maps to more than one blob: each default
/// target selects exactly one controller copy, except the one variant
/// documented to ship without a controller blob, which selects none.
pub proof fn lemma_bt_lookup_covers_defaults(c: Chip, idf: Seq<char>)
    ensures
        crate::chip::spec_default_chips().contains(c),
        spec_bt_actions(c, idf).len() == (if c == Chip::Esp32s2 {
            0nat
        } else {
            1nat
        }),
{
    crate::chip::lemma_default_chips_complete(c);
}

/// Law: the physical-layer blob and the coexistence blob are requested
/// unconditionally: the library step of every chip's plan contains both
/// copies, whatever the SDK path.
pub proof fn lemma_phy_and_coex_unconditional(c: Chip, idf: Seq<char>)
    ensures
        spec_lib_actions(c, idf).contains(spec_phy_copy(c, idf)),
        spec_lib_actions(c, idf).contains(spec_coex_copy(c, idf)),
{
    let s123 = spec_lib_setup_actions(c) + spec_printf_actions(c) + spec_supplicant_actions(c);
    let s4 = spec_phy_actions(c, idf);
    assert(s4[0] == spec_phy_copy(c, idf));
    crate::action::lemma_concat_contains(s123, s4, spec_phy_copy(c, idf));
    crate::action::lemma_concat_contains(s123 + s4, spec_rtc_actions(c, idf), spec_phy_copy(c, idf));
    crate::action::lemma_concat_contains(
        s123 + s4 + spec_rtc_actions(c, idf),
        spec_btbb_actions(c, idf),
        spec_phy_copy(c, idf),
    );
    crate::action::lemma_concat_contains(
        s123 + s4 + spec_rtc_actions(c, idf) + spec_btbb_actions(c, idf),
        spec_wifi_actions(c, idf),
        spec_phy_copy(c, idf),
    );
    crate::action::lemma_concat_contains(
        s123 + s4 + spec_rtc_actions(c, idf) + spec_btbb_actions(c, idf) + spec_wifi_actions(
            c,
            idf,
        ),
        spec_coex_actions(c, idf),
        spec_phy_copy(c, idf),
    );
    crate::action::lemma_concat_contains(
        s123 + s4 + spec_rtc_actions(c, idf) + spec_btbb_actions(c, idf) + spec_wifi_actions(
            c,
            idf,
        ) + spec_coex_actions(c, idf),
        spec_bt_actions(c, idf),
        spec_phy_copy(c, idf),
    );
    let s17 = s123 + s4 + spec_rtc_actions(c, idf) + spec_btbb_actions(c, idf) + spec_wifi_actions(
        c,
        idf,
    );
    assert(spec_coex_actions(c, idf)[0] == spec_coex_copy(c, idf));
    crate::action::lemma_concat_contains(s17, spec_coex_actions(c, idf), spec_coex_copy(c, idf));
    crate::action::lemma_concat_contains(
        s17 + spec_coex_actions(c, idf),
        spec_bt_actions(c, idf),
        spec_coex_copy(c, idf),
    );
}

/// Law: for the one excluded variant, the low-power chip without the full
/// WiFi stack, neither the supplicant library nor any of the seven WiFi
/// vendor blobs is requested: those two sections of its plan are empty,
/// and its whole library step consists of exactly the directory setup,
/// the utility library, the physical-layer blob, the Bluetooth-baseband
/// blob, the coexistence blob and the Bluetooth-controller blob.
pub proof fn lemma_excluded_variant_requests_no_wifi(idf: Seq<char>)
    ensures
        spec_supplicant_actions(Chip::Esp32h2) == Seq::<ActionV>::empty(),
        spec_wifi_actions(Chip::Esp32h2, idf) == Seq::<ActionV>::empty(),
        spec_lib_actions(Chip::Esp32h2, idf) == seq![
            ActionV::RemoveDirAll { path: spec_lib_dir(Chip::Esp32h2) },
            ActionV::MakeDirAll { path: spec_lib_dir(Chip::Esp32h2) },
            ActionV::CopyFile {
                from: "./helper_project/build/esp-idf/main/libprintf.a"@,
                to: spec_lib_dst(Chip::Esp32h2, "/libprintf.a"@),
            },
            spec_phy_copy(Chip::Esp32h2, idf),
            ActionV::CopyFile {
                from: idf + "/components/esp_phy/lib/"@ + spec_chip_name(Chip::Esp32h2)
                    + "/libbtbb.a"@,
                to: spec_lib_dst(Chip::Esp32h2, "/libbtbb.a"@),
            },
            spec_coex_copy(Chip::Esp32h2, idf),
            ActionV::CopyFile {
                from: idf + "/components/bt/controller/lib_esp32h2/esp32h2-bt-lib/libble_app.a"@,
                to: spec_lib_dst(Chip::Esp32h2, "/libble_app.a"@),
            },
        ],
{
    assert(spec_lib_actions(Chip::Esp32h2, idf) =~= seq![
        ActionV::RemoveDirAll { path: spec_lib_dir(Chip::Esp32h2) },
        ActionV::MakeDirAll { path: spec_lib_dir(Chip::Esp32h2) },
        ActionV::CopyFile {
            from: "./helper_project/build/esp-idf/main/libprintf.a"@,
            to: spec_lib_dst(Chip::Esp32h2, "/libprintf.a"@),
        },
        spec_phy_copy(Chip::Esp32h2, idf),
        ActionV::CopyFile {
            from: idf + "/components/esp_phy/lib/"@ + spec_chip_name(Chip::Esp32h2)
                + "/libbtbb.a"@,
            to: spec_lib_dst(Chip::Esp32h2, "/libbtbb.a"@),
        },
        spec_coex_copy(Chip::Esp32h2, idf),
        ActionV::CopyFile {
            from: idf + "/components/bt/controller/lib_esp32h2/esp32h2-bt-lib/libble_app.a"@,
            to: spec_lib_dst(Chip::Esp32h2, "/libble_app.a"@),
        },
    ]);
}

/// Law: the Bluetooth-baseband blob is not requested for the two earliest
/// variants, and is requested exactly once for every other variant.
pub proof fn lemma_bt_baseband_rule(c: Chip, idf: Seq<char>)
    ensures
        spec_btbb_actions(c, idf).len() == (if c == Chip::Esp32 || c == Chip::Esp32s2 {
            0nat
        } else {
            1nat
        }),
{
}

} // verus!
