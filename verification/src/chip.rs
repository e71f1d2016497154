use vstd::prelude::*;
use vstd::string::StringExecFns;

use crate::strutil::str_eq;

verus! {

/// The chip variants the tool knows how to collect artifacts for.
#[derive(Clone, Copy, PartialEq, Eq, Structural, Debug)]
pub enum Chip {
    Esp32,
    Esp32s2,
    Esp32s3,
    Esp32c2,
    Esp32c3,
    Esp32c6,
    Esp32h2,
}

/// The identifier under which a chip is named on the command line and in
/// the SDK's directory layout.
pub open spec fn spec_chip_name(c: Chip) -> Seq<char> {
    match c {
        Chip::Esp32 => "esp32"@,
        Chip::Esp32s2 => "esp32s2"@,
        Chip::Esp32s3 => "esp32s3"@,
        Chip::Esp32c2 => "esp32c2"@,
        Chip::Esp32c3 => "esp32c3"@,
        Chip::Esp32c6 => "esp32c6"@,
        Chip::Esp32h2 => "esp32h2"@,
    }
}

/// Which chip, if any, a target identifier names.
pub open spec fn spec_chip_from_name(s: Seq<char>) -> Option<Chip> {
    if s == "esp32"@ {
        Some(Chip::Esp32)
    } else if s == "esp32s2"@ {
        Some(Chip::Esp32s2)
    } else if s == "esp32s3"@ {
        Some(Chip::Esp32s3)
    } else if s == "esp32c2"@ {
        Some(Chip::Esp32c2)
    } else if s == "esp32c3"@ {
        Some(Chip::Esp32c3)
    } else if s == "esp32c6"@ {
        Some(Chip::Esp32c6)
    } else if s == "esp32h2"@ {
        Some(Chip::Esp32h2)
    } else {
        None
    }
}

impl Chip {
    /// The chip's target identifier.
    pub fn name(&self) -> (r: &'static str)
        ensures
            r@ == spec_chip_name(*self),
    {
        match self {
            Chip::Esp32 => "esp32",
            Chip::Esp32s2 => "esp32s2",
            Chip::Esp32s3 => "esp32s3",
            Chip::Esp32c2 => "esp32c2",
            Chip::Esp32c3 => "esp32c3",
            Chip::Esp32c6 => "esp32c6",
            Chip::Esp32h2 => "esp32h2",
        }
    }

    /// The chip's target identifier as an owned string.
    pub fn name_string(&self) -> (r: String)
        ensures
            r@ == spec_chip_name(*self),
    {
        String::from_str(self.name())
    }
}

/// Parse a target identifier; `None` for an identifier outside the known set.
pub fn chip_from_name(name: &str) -> (r: Option<Chip>)
    ensures
        r == spec_chip_from_name(name@),
{
    if str_eq(name, "esp32") {
        Some(Chip::Esp32)
    } else if str_eq(name, "esp32s2") {
        Some(Chip::Esp32s2)
    } else if str_eq(name, "esp32s3") {
        Some(Chip::Esp32s3)
    } else if str_eq(name, "esp32c2") {
        Some(Chip::Esp32c2)
    } else if str_eq(name, "esp32c3") {
        Some(Chip::Esp32c3)
    } else if str_eq(name, "esp32c6") {
        Some(Chip::Esp32c6)
    } else if str_eq(name, "esp32h2") {
        Some(Chip::Esp32h2)
    } else {
        None
    }
}

/// Naming a chip and parsing the name gets the same chip back; in
/// particular every identifier in the built-in default list parses.
pub proof fn lemma_chip_name_round_trip(c: Chip)
    ensures
        spec_chip_from_name(spec_chip_name(c)) == Some(c),
{
    reveal_strlit("esp32");
    reveal_strlit("esp32s2");
    reveal_strlit("esp32s3");
    reveal_strlit("esp32c2");
    reveal_strlit("esp32c3");
    reveal_strlit("esp32c6");
    reveal_strlit("esp32h2");
    assert("esp32"@.len() == 5);
    assert("esp32s2"@.len() == 7);
    assert("esp32s3"@.len() == 7);
    assert("esp32c2"@.len() == 7);
    assert("esp32c3"@.len() == 7);
    assert("esp32c6"@.len() == 7);
    assert("esp32h2"@.len() == 7);
    assert("esp32s2"@[5] == 's' && "esp32s3"@[5] == 's' && "esp32c2"@[5] == 'c' && "esp32c3"@[5]
        == 'c' && "esp32c6"@[5] == 'c' && "esp32h2"@[5] == 'h');
    assert("esp32s2"@[6] == '2' && "esp32s3"@[6] == '3' && "esp32c2"@[6] == '2' && "esp32c3"@[6]
        == '3' && "esp32c6"@[6] == '6' && "esp32h2"@[6] == '2');
    match c {
        Chip::Esp32 => assert(spec_chip_from_name(spec_chip_name(c)) == Some(c)),
        Chip::Esp32s2 => assert(spec_chip_from_name(spec_chip_name(c)) == Some(c)),
        Chip::Esp32s3 => assert(spec_chip_from_name(spec_chip_name(c)) == Some(c)),
        Chip::Esp32c2 => assert(spec_chip_from_name(spec_chip_name(c)) == Some(c)),
        Chip::Esp32c3 => assert(spec_chip_from_name(spec_chip_name(c)) == Some(c)),
        Chip::Esp32c6 => assert(spec_chip_from_name(spec_chip_name(c)) == Some(c)),
        Chip::Esp32h2 => assert(spec_chip_from_name(spec_chip_name(c)) == Some(c)),
    }
}

/// The built-in default target list.
pub open spec fn spec_default_chips() -> Seq<Chip> {
    seq![
        Chip::Esp32,
        Chip::Esp32s2,
        Chip::Esp32s3,
        Chip::Esp32c2,
        Chip::Esp32c3,
        Chip::Esp32c6,
        Chip::Esp32h2,
    ]
}

/// The built-in default target list.
pub fn default_chips() -> (r: Vec<Chip>)
    ensures
        r@ == spec_default_chips(),
{
    let mut v: Vec<Chip> = Vec::new();
    v.push(Chip::Esp32);
    v.push(Chip::Esp32s2);
    v.push(Chip::Esp32s3);
    v.push(Chip::Esp32c2);
    v.push(Chip::Esp32c3);
    v.push(Chip::Esp32c6);
    v.push(Chip::Esp32h2);
    proof {
        assert(v@ =~= spec_default_chips());
    }
    v
}

/// Every chip stands in the built-in default list.
pub proof fn lemma_default_chips_complete(c: Chip)
    ensures
        spec_default_chips().contains(c),
{
    match c {
        Chip::Esp32 => assert(spec_default_chips()[0] == c),
        Chip::Esp32s2 => assert(spec_default_chips()[1] == c),
        Chip::Esp32s3 => assert(spec_default_chips()[2] == c),
        Chip::Esp32c2 => assert(spec_default_chips()[3] == c),
        Chip::Esp32c3 => assert(spec_default_chips()[4] == c),
        Chip::Esp32c6 => assert(spec_default_chips()[5] == c),
        Chip::Esp32h2 => assert(spec_default_chips()[6] == c),
    }
}

/// Chips with the full WiFi stack; one low-power variant lacks it.
pub open spec fn has_full_wifi(c: Chip) -> bool {
    c != Chip::Esp32h2
}

/// Chips whose WiFi blob set keeps the mesh and WAPI libraries.
pub open spec fn has_mesh_and_wapi(c: Chip) -> bool {
    has_full_wifi(c) && c != Chip::Esp32c2
}

/// Chips that ship a Bluetooth-baseband blob; the two earliest do not.
pub open spec fn has_bt_baseband(c: Chip) -> bool {
    c != Chip::Esp32 && c != Chip::Esp32s2
}

/// Only the original reference chip ships the secondary radio-control blob.
pub open spec fn has_rtc_blob(c: Chip) -> bool {
    c == Chip::Esp32
}

/// Chips whose Bluetooth headers are collected; one variant has none.
pub open spec fn has_bt_headers(c: Chip) -> bool {
    c != Chip::Esp32s2
}

/// The chip whose Bluetooth header directory is used: one newer variant
/// reuses an older variant's headers rather than having its own.
pub open spec fn bt_header_chip(c: Chip) -> Chip {
    if c == Chip::Esp32s3 {
        Chip::Esp32c3
    } else {
        c
    }
}

/// Chips that ship a standalone Bluetooth controller configuration header.
pub open spec fn has_bt_cfg_header(c: Chip) -> bool {
    c == Chip::Esp32c2 || c == Chip::Esp32c6 || c == Chip::Esp32h2
}

} // verus!
