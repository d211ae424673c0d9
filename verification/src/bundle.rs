//! The application bundle that stands for a source in the notification
//! centre: the texts of its files.

use crate::text::{append_decimal, append_str, concat, decimal};
use vstd::prelude::*;

verus! {

/// The sum of `bytes`.
pub open spec fn byte_sum(bytes: Seq<u8>) -> nat
    decreases bytes.len(),
{
    if bytes.len() == 0 {
        0
    } else {
        byte_sum(bytes.drop_last()) + bytes.last() as nat
    }
}

/// The version of an icon: the sum of its bytes, in thirty-two bits.
pub fn icon_version(bytes: &[u8]) -> (r: u32)
    ensures
        r == byte_sum(bytes@) % 0x1_0000_0000,
{
    let mut sum: u32 = 0;
    let mut i: usize = 0;
    assert(bytes@.take(0) =~= Seq::<u8>::empty());
    while i < bytes.len()
        invariant
            i <= bytes@.len(),
            sum == byte_sum(bytes@.take(i as int)) % 0x1_0000_0000,
        decreases bytes.len() - i,
    {
        proof {
            assert(bytes@.take(i + 1).drop_last() =~= bytes@.take(i as int));
            assert(bytes@.take(i + 1).last() == bytes@[i as int]);
            let before = byte_sum(bytes@.take(i as int));
            let b = bytes@[i as int] as nat;
            assert((before % 0x1_0000_0000 + b) % 0x1_0000_0000 == (before + b) % 0x1_0000_0000)
                by (nonlinear_arith);
        }
        sum = sum.wrapping_add(bytes[i] as u32);
        i += 1;
    }
    assert(bytes@.take(i as int) =~= bytes@);
    sum
}

/// The name of the directory of the bundle of `source`.
pub fn bundle_dir_name(source: &str) -> (r: String)
    ensures
        r@ == source@ + ".app"@,
{
    concat(source, ".app")
}

/// The name of the icon file of the bundle of `source`.
pub fn bundle_icon_name(source: &str) -> (r: String)
    ensures
        r@ == source@ + ".icns"@,
{
    concat(source, ".icns")
}

/// The property list of a bundle.
pub open spec fn plist_text(
    display_name: Seq<char>,
    bundle_id: Seq<char>,
    version: u32,
    icon_name: Seq<char>,
) -> Seq<char> {
    "<?xml version=\"1.0\" encoding=\"UTF-8\"?>\n<!DOCTYPE plist PUBLIC \"-//Apple//DTD PLIST 1.0//EN\" \"http://www.apple.com/DTDs/PropertyList-1.0.dtd\">\n<plist version=\"1.0\">\n<dict>\n  <key>CFBundleName</key>\n  <string>"@
        + display_name + "</string>\n  <key>CFBundleIdentifier</key>\n  <string>"@ + bundle_id
        + "</string>\n  <key>CFBundleVersion</key>\n  <string>"@ + decimal(version as nat)
        + "</string>\n  <key>CFBundleShortVersionString</key>\n  <string>"@ + decimal(
        version as nat,
    )
        + "</string>\n  <key>CFBundleExecutable</key>\n  <string>wakedev-helper</string>\n  <key>CFBundleIconFile</key>\n  <string>"@
        + icon_name + "</string>\n  <key>LSUIElement</key>\n  <true/>\n</dict>\n</plist>\n"@
}

/// Writes the property list of a bundle.
pub fn bundle_plist(display_name: &str, bundle_id: &str, version: u32, icon_name: &str) -> (r:
    String)
    ensures
        r@ == plist_text(display_name@, bundle_id@, version, icon_name@),
{
    let mut out = String::new();
    append_str(
        &mut out,
        "<?xml version=\"1.0\" encoding=\"UTF-8\"?>\n<!DOCTYPE plist PUBLIC \"-//Apple//DTD PLIST 1.0//EN\" \"http://www.apple.com/DTDs/PropertyList-1.0.dtd\">\n<plist version=\"1.0\">\n<dict>\n  <key>CFBundleName</key>\n  <string>",
    );
    append_str(&mut out, display_name);
    append_str(&mut out, "</string>\n  <key>CFBundleIdentifier</key>\n  <string>");
    append_str(&mut out, bundle_id);
    append_str(&mut out, "</string>\n  <key>CFBundleVersion</key>\n  <string>");
    append_decimal(&mut out, version as u128);
    append_str(&mut out, "</string>\n  <key>CFBundleShortVersionString</key>\n  <string>");
    append_decimal(&mut out, version as u128);
    append_str(
        &mut out,
        "</string>\n  <key>CFBundleExecutable</key>\n  <string>wakedev-helper</string>\n  <key>CFBundleIconFile</key>\n  <string>",
    );
    append_str(&mut out, icon_name);
    append_str(&mut out, "</string>\n  <key>LSUIElement</key>\n  <true/>\n</dict>\n</plist>\n");
    assert(out@ =~= plist_text(display_name@, bundle_id@, version, icon_name@));
    out
}

/// Whether the property list of a bundle is written: when there is none
/// yet, or the icon has changed.
pub fn plist_due(plist_exists: bool, icon_changed: bool) -> (r: bool)
    ensures
        r == (!plist_exists || icon_changed),
{
    !plist_exists || icon_changed
}

} // verus!
