use vstd::prelude::*;

verus! {

/// A colour by its red, green and blue parts, each on the scale from 0 to
/// `0xffff`.
#[derive(Debug, Clone, Copy, PartialEq, Eq, Structural)]
pub struct Rgb16 {
    pub red: u16,
    pub green: u16,
    pub blue: u16,
}

/// The colour packed into the low 48 bits of `packed`: red in the highest
/// 16 of them, then green, then blue.
pub open spec fn unpacked(packed: u64) -> Rgb16 {
    Rgb16 {
        red: ((packed / 0x1_0000_0000) % 0x1_0000) as u16,
        green: ((packed / 0x1_0000) % 0x1_0000) as u16,
        blue: (packed % 0x1_0000) as u16,
    }
}

/// Unpacks one colour of a pallet table.
pub fn unpack(packed: u64) -> (color: Rgb16)
    ensures
        color == unpacked(packed),
{
    Rgb16 {
        red: ((packed / 0x1_0000_0000) % 0x1_0000) as u16,
        green: ((packed / 0x1_0000) % 0x1_0000) as u16,
        blue: (packed % 0x1_0000) as u16,
    }
}
/// The colours of the pallet `Tango`, packed.
pub const TANGO: [u64; 16] = [
    0x2e2e_3434_3636,
    0xcccc_0000_0000,
    0x4e4e_9a9a_0606,
    0xc4c4_a0a0_0000,
    0x3434_6565_a4a4,
    0x7575_5050_7b7b,
    0x0606_9820_9a9a,
    0xd3d3_d7d7_cfcf,
    0x5555_5757_5353,
    0xefef_2929_2929,
    0x8a8a_e2e2_3434,
    0xfcfc_e9e9_4f4f,
    0x7272_9f9f_cfcf,
    0xadad_7f7f_a8a8,
    0x3434_e2e2_e2e2,
    0xeeee_eeee_ecec,
];
/// The colours of the pallet `Zenburn`, packed.
pub const ZENBURN: [u64; 16] = [
    0x2222_2222_2222,
    0x8080_3232_3232,
    0x5b5b_7676_2f2f,
    0xaaaa_9999_4343,
    0x3232_4c4c_8080,
    0x7070_6c6c_9a9a,
    0x9292_b1b1_9e9e,
    0xffff_ffff_ffff,
    0x2222_2222_2222,
    0x9898_2b2b_2b2b,
    0x8989_b8b8_3f3f,
    0xefef_efef_6060,
    0x2b2b_4f4f_9898,
    0x8282_6a6a_b1b1,
    0xa1a1_cdcd_cdcd,
    0xdede_dede_dede,
];
/// The colours of the pallet `Linux`, packed.
pub const LINUX: [u64; 16] = [
    0x0000_0000_0000,
    0xaaaa_0000_0000,
    0x0000_aaaa_0000,
    0xaaaa_5555_0000,
    0x0000_0000_aaaa,
    0xaaaa_0000_aaaa,
    0x0000_aaaa_aaaa,
    0xaaaa_aaaa_aaaa,
    0x5555_5555_5555,
    0xffff_5555_5555,
    0x5555_ffff_5555,
    0xffff_ffff_5555,
    0x5555_5555_ffff,
    0xffff_5555_ffff,
    0x5555_ffff_ffff,
    0xffff_ffff_ffff,
];
/// The colours of the pallet `XTerm`, packed.
pub const XTERM: [u64; 16] = [
    0x0000_0000_0000,
    0xcdcb_0000_0000,
    0x0000_cdcb_0000,
    0xcdcb_cdcb_0000,
    0x1e1a_908f_ffff,
    0xcdcb_0000_cdcb,
    0x0000_cdcb_cdcb,
    0xe5e2_e5e2_e5e2,
    0x4ccc_4ccc_4ccc,
    0xffff_0000_0000,
    0x0000_ffff_0000,
    0xffff_ffff_0000,
    0x4645_8281_b4ae,
    0xffff_0000_ffff,
    0x0000_ffff_ffff,
    0xffff_ffff_ffff,
];
/// The colours of the pallet `RXVT`, packed.
pub const RXVT: [u64; 16] = [
    0x0000_0000_0000,
    0xcdcd_0000_0000,
    0x0000_cdcd_0000,
    0xcdcd_cdcd_0000,
    0x0000_0000_cdcd,
    0xcdcd_0000_cdcd,
    0x0000_cdcd_cdcd,
    0xfafa_ebeb_d7d7,
    0x4040_4040_4040,
    0xffff_0000_0000,
    0x0000_ffff_0000,
    0xffff_ffff_0000,
    0x0000_0000_ffff,
    0xffff_0000_ffff,
    0x0000_ffff_ffff,
    0xffff_ffff_ffff,
];
/// The colours of the pallet `SolarizedLight`, packed.
pub const SOLARIZED_LIGHT: [u64; 16] = [
    0xeeee_e8e8_d5d5,
    0xdcdc_3232_2f2f,
    0x8585_9999_0000,
    0xb5b5_8989_0000,
    0x2626_8b8b_d2d2,
    0xd3d3_3636_8282,
    0x2a2a_a1a1_9898,
    0x0707_3636_4242,
    0xfdfd_f6f6_e3e3,
    0xcbcb_4b4b_1616,
    0x9393_a1a1_a1a1,
    0x8383_9494_9696,
    0x6565_7b7b_8383,
    0x6c6c_7171_c4c4,
    0x5858_6e6e_7575,
    0x0000_2b2b_3636,
];
/// The colours of the pallet `SolarizedDark`, packed.
pub const SOLARIZED_DARK: [u64; 16] = [
    0x0707_3636_4242,
    0xdcdc_3232_2f2f,
    0x8585_9999_0000,
    0xb5b5_8989_0000,
    0x2626_8b8b_d2d2,
    0xd3d3_3636_8282,
    0x2a2a_a1a1_9898,
    0xeeee_e8e8_d5d5,
    0x0000_2b2b_3636,
    0xcbcb_4b4b_1616,
    0x5858_6e6e_7575,
    0x8383_9494_9696,
    0x6565_7b7b_8383,
    0x6c6c_7171_c4c4,
    0x9393_a1a1_a1a1,
    0xfdfd_f6f6_e3e3,
];
/// The colours of the pallet `Snazzy`, packed.
pub const SNAZZY: [u64; 16] = [
    0x2828_2a2a_3636,
    0xffff_5c5c_5757,
    0x5a5a_f7f7_8e8e,
    0xf3f3_f9f9_9d9d,
    0x5757_c7c7_ffff,
    0xffff_6a6a_c1c1,
    0x9a9a_eded_fefe,
    0xf1f1_f1f1_f0f0,
    0x6868_6868_6868,
    0xffff_5c5c_5757,
    0x5a5a_f7f7_8e8e,
    0xf3f3_f9f9_9d9d,
    0x5757_c7c7_ffff,
    0xffff_6a6a_c1c1,
    0x9a9a_eded_fefe,
    0xf1f1_f1f1_f0f0,
];
/// The colour schemes that a terminal can be given.
#[derive(Debug, Clone, Copy, PartialEq, Eq, Structural)]
pub enum Pallet {
    Tango,
    Zenburn,
    Linux,
    XTerm,
    RXVT,
    SolarizedLight,
    SolarizedDark,
    Snazzy,
}

/// Every pallet, in the order in which they are listed to the user.
pub open spec fn all_pallets() -> Seq<Pallet> {
    seq![
        Pallet::Tango,
        Pallet::Zenburn,
        Pallet::Linux,
        Pallet::XTerm,
        Pallet::RXVT,
        Pallet::SolarizedLight,
        Pallet::SolarizedDark,
        Pallet::Snazzy,
    ]
}

impl Pallet {
    /// The packed table of the pallet.
    pub open spec fn table(&self) -> Seq<u64> {
        match self {
            Pallet::Tango => TANGO@,
            Pallet::Zenburn => ZENBURN@,
            Pallet::Linux => LINUX@,
            Pallet::XTerm => XTERM@,
            Pallet::RXVT => RXVT@,
            Pallet::SolarizedLight => SOLARIZED_LIGHT@,
            Pallet::SolarizedDark => SOLARIZED_DARK@,
            Pallet::Snazzy => SNAZZY@,
        }
    }

    /// The sixteen colours of the pallet.
    pub open spec fn spec_colors(&self) -> Seq<Rgb16> {
        Seq::new(16, |i: int| unpacked(self.table()[i]))
    }

    fn tango() -> (colors: Vec<Rgb16>)
        ensures
            colors@ == Pallet::Tango.spec_colors(),
    {
        unpack_table(&TANGO)
    }

    fn zenburn() -> (colors: Vec<Rgb16>)
        ensures
            colors@ == Pallet::Zenburn.spec_colors(),
    {
        unpack_table(&ZENBURN)
    }

    fn linux() -> (colors: Vec<Rgb16>)
        ensures
            colors@ == Pallet::Linux.spec_colors(),
    {
        unpack_table(&LINUX)
    }

    fn xterm() -> (colors: Vec<Rgb16>)
        ensures
            colors@ == Pallet::XTerm.spec_colors(),
    {
        unpack_table(&XTERM)
    }

    fn rxvt() -> (colors: Vec<Rgb16>)
        ensures
            colors@ == Pallet::RXVT.spec_colors(),
    {
        unpack_table(&RXVT)
    }

    fn solarized_light() -> (colors: Vec<Rgb16>)
        ensures
            colors@ == Pallet::SolarizedLight.spec_colors(),
    {
        unpack_table(&SOLARIZED_LIGHT)
    }

    fn solarized_dark() -> (colors: Vec<Rgb16>)
        ensures
            colors@ == Pallet::SolarizedDark.spec_colors(),
    {
        unpack_table(&SOLARIZED_DARK)
    }

    fn snazzy() -> (colors: Vec<Rgb16>)
        ensures
            colors@ == Pallet::Snazzy.spec_colors(),
    {
        unpack_table(&SNAZZY)
    }

    /// The sixteen colours of the pallet, from colour 0 to colour 15.
    pub fn colors(&self) -> (colors: Vec<Rgb16>)
        ensures
            colors@ == self.spec_colors(),
            colors@.len() == 16,
    {
        match self {
            Pallet::Tango => Self::tango(),
            Pallet::Zenburn => Self::zenburn(),
            Pallet::Linux => Self::linux(),
            Pallet::XTerm => Self::xterm(),
            Pallet::RXVT => Self::rxvt(),
            Pallet::SolarizedLight => Self::solarized_light(),
            Pallet::SolarizedDark => Self::solarized_dark(),
            Pallet::Snazzy => Self::snazzy(),
        }
    }

    /// Every pallet, in the order in which they are listed to the user.
    pub fn all() -> (pallets: Vec<Pallet>)
        ensures
            pallets@ == all_pallets(),
    {
        let pallets = vec![
            Pallet::Tango,
            Pallet::Zenburn,
            Pallet::Linux,
            Pallet::XTerm,
            Pallet::RXVT,
            Pallet::SolarizedLight,
            Pallet::SolarizedDark,
            Pallet::Snazzy,
        ];
        assert(pallets@ =~= all_pallets());
        pallets
    }

    /// The name of the pallet.
    pub open spec fn name(&self) -> Seq<char> {
        match self {
            Pallet::Tango => "Tango"@,
            Pallet::Zenburn => "Zenburn"@,
            Pallet::Linux => "Linux"@,
            Pallet::XTerm => "XTerm"@,
            Pallet::RXVT => "RXVT"@,
            Pallet::SolarizedLight => "SolarizedLight"@,
            Pallet::SolarizedDark => "SolarizedDark"@,
            Pallet::Snazzy => "Snazzy"@,
        }
    }

    /// The name of the pallet, as it is written in a configuration.
    pub fn to_string(&self) -> (name: String)
        ensures
            name@ == self.name(),
    {
        match self {
            Pallet::Tango => "Tango".to_owned(),
            Pallet::Zenburn => "Zenburn".to_owned(),
            Pallet::Linux => "Linux".to_owned(),
            Pallet::XTerm => "XTerm".to_owned(),
            Pallet::RXVT => "RXVT".to_owned(),
            Pallet::SolarizedLight => "SolarizedLight".to_owned(),
            Pallet::SolarizedDark => "SolarizedDark".to_owned(),
            Pallet::Snazzy => "Snazzy".to_owned(),
        }
    }
}

/// Unpacks a whole pallet table.
fn unpack_table(table: &[u64; 16]) -> (colors: Vec<Rgb16>)
    ensures
        colors@ == Seq::new(16, |i: int| unpacked(table@[i])),
{
    let mut colors: Vec<Rgb16> = Vec::new();
    let mut i: usize = 0;
    while i < 16
        invariant
            i <= 16,
            colors@.len() == i,
            forall|j: int| 0 <= j < i ==> colors@[j] == unpacked(table@[j]),
        decreases 16 - i,
    {
        colors.push(unpack(table[i]));
        i += 1;
    }
    assert(colors@ =~= Seq::new(16, |i: int| unpacked(table@[i])));
    colors
}

} // verus!
