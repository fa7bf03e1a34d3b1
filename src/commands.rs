use vstd::prelude::*;

verus! {

/// The 9-byte vendor frame that sets the BLE light to `(r, g, b)`.
pub open spec fn color_frame(r: u8, g: u8, b: u8) -> Seq<u8> {
    seq![0x7Eu8, 0x07u8, 0x05u8, 0x03u8, r, g, b, 0x10u8, 0xEFu8]
}

/// Builds the BLE command frame that sets the light to the given color.
pub fn create_color_command(red_value: u8, green_value: u8, blue_value: u8) -> (frame: [u8; 9])
    ensures
        frame@ == color_frame(red_value, green_value, blue_value),
{
    let frame: [u8; 9] = [0x7E, 0x07, 0x05, 0x03, red_value, green_value, blue_value, 0x10, 0xEF];
    assert(frame@ =~= color_frame(red_value, green_value, blue_value));
    frame
}

} // verus!
