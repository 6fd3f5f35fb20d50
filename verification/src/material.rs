//! Filament material types as listed by the OpenPrintTag `material_type_enum`.
use vstd::prelude::*;
use crate::text::str_eq;

verus! {

/// Filament material type, based on the OpenPrintTag material_type_enum specification.
///
/// Written in data files as the uppercase abbreviation (e.g. `"PLA"`).
/// Unknown strings are kept as `Other(string)` so that future additions and
/// hand-edited data files are preserved without error.
#[derive(Debug, PartialEq, Eq, Hash)]
pub enum MaterialType {
    /// key 0 — Polylactic Acid
    Pla,
    /// key 1 — Polyethylene Terephthalate Glycol
    Petg,
    /// key 2 — Thermoplastic Polyurethane
    Tpu,
    /// key 3 — Acrylonitrile Butadiene Styrene
    Abs,
    /// key 4 — Acrylonitrile Styrene Acrylate
    Asa,
    /// key 5 — Polycarbonate
    Pc,
    /// key 6 — Polycyclohexylenedimethylene Terephthalate Glycol
    Pctg,
    /// key 7 — Polypropylene
    Pp,
    /// key 8 — Polyamide 6
    Pa6,
    /// key 9 — Polyamide 11
    Pa11,
    /// key 10 — Polyamide 12
    Pa12,
    /// key 11 — Polyamide 66
    Pa66,
    /// key 12 — Copolyester
    Cpe,
    /// key 13 — Thermoplastic Elastomer
    Tpe,
    /// key 14 — High Impact Polystyrene
    Hips,
    /// key 15 — Polyhydroxyalkanoate
    Pha,
    /// key 16 — Polyethylene Terephthalate
    Pet,
    /// key 17 — Polyetherimide
    Pei,
    /// key 18 — Polybutylene Terephthalate
    Pbt,
    /// key 19 — Polyvinyl Butyral
    Pvb,
    /// key 20 — Polyvinyl Alcohol
    Pva,
    /// key 21 — Polyetherketoneketone
    Pekk,
    /// key 22 — Polyether Ether Ketone
    Peek,
    /// key 23 — Butenediol Vinyl Alcohol Copolymer
    Bvoh,
    /// key 24 — Thermoplastic Copolyester
    Tpc,
    /// key 25 — Polyphenylene Sulfide
    Pps,
    /// key 26 — Polyphenylsulfone
    Ppsu,
    /// key 27 — Polyvinyl Chloride
    Pvc,
    /// key 28 — Polyether Block Amide
    Peba,
    /// key 29 — Polyvinylidene Fluoride
    Pvdf,
    /// key 30 — Polyphthalamide
    Ppa,
    /// key 31 — Polycaprolactone
    Pcl,
    /// key 32 — Polyethersulfone
    Pes,
    /// key 33 — Polymethyl Methacrylate
    Pmma,
    /// key 34 — Polyoxymethylene
    Pom,
    /// key 35 — Polyphenylene Ether
    Ppe,
    /// key 36 — Polystyrene
    Ps,
    /// key 37 — Polysulfone
    Psu,
    /// key 38 — Thermoplastic Polyimide
    Tpi,
    /// key 39 — Styrene-Butadiene-Styrene
    Sbs,
    /// key 40 — Olefin Block Copolymer
    Obc,
    /// key 41 — Ethylene Vinyl Acetate
    Eva,
    /// Any string not recognised by the current spec version.
    Other(String),
}

impl Clone for MaterialType {
    fn clone(&self) -> (r: Self)
        ensures
            r == *self,
    {
        match self {
            MaterialType::Pla => MaterialType::Pla,
            MaterialType::Petg => MaterialType::Petg,
            MaterialType::Tpu => MaterialType::Tpu,
            MaterialType::Abs => MaterialType::Abs,
            MaterialType::Asa => MaterialType::Asa,
            MaterialType::Pc => MaterialType::Pc,
            MaterialType::Pctg => MaterialType::Pctg,
            MaterialType::Pp => MaterialType::Pp,
            MaterialType::Pa6 => MaterialType::Pa6,
            MaterialType::Pa11 => MaterialType::Pa11,
            MaterialType::Pa12 => MaterialType::Pa12,
            MaterialType::Pa66 => MaterialType::Pa66,
            MaterialType::Cpe => MaterialType::Cpe,
            MaterialType::Tpe => MaterialType::Tpe,
            MaterialType::Hips => MaterialType::Hips,
            MaterialType::Pha => MaterialType::Pha,
            MaterialType::Pet => MaterialType::Pet,
            MaterialType::Pei => MaterialType::Pei,
            MaterialType::Pbt => MaterialType::Pbt,
            MaterialType::Pvb => MaterialType::Pvb,
            MaterialType::Pva => MaterialType::Pva,
            MaterialType::Pekk => MaterialType::Pekk,
            MaterialType::Peek => MaterialType::Peek,
            MaterialType::Bvoh => MaterialType::Bvoh,
            MaterialType::Tpc => MaterialType::Tpc,
            MaterialType::Pps => MaterialType::Pps,
            MaterialType::Ppsu => MaterialType::Ppsu,
            MaterialType::Pvc => MaterialType::Pvc,
            MaterialType::Peba => MaterialType::Peba,
            MaterialType::Pvdf => MaterialType::Pvdf,
            MaterialType::Ppa => MaterialType::Ppa,
            MaterialType::Pcl => MaterialType::Pcl,
            MaterialType::Pes => MaterialType::Pes,
            MaterialType::Pmma => MaterialType::Pmma,
            MaterialType::Pom => MaterialType::Pom,
            MaterialType::Ppe => MaterialType::Ppe,
            MaterialType::Ps => MaterialType::Ps,
            MaterialType::Psu => MaterialType::Psu,
            MaterialType::Tpi => MaterialType::Tpi,
            MaterialType::Sbs => MaterialType::Sbs,
            MaterialType::Obc => MaterialType::Obc,
            MaterialType::Eva => MaterialType::Eva,
            MaterialType::Other(s) => MaterialType::Other(s.clone()),
        }
    }
}

impl MaterialType {
    /// The abbreviation that names this material.
    pub open spec fn spec_abbreviation(&self) -> Seq<char> {
        match self {
            MaterialType::Pla => seq!['P', 'L', 'A'],
            MaterialType::Petg => seq!['P', 'E', 'T', 'G'],
            MaterialType::Tpu => seq!['T', 'P', 'U'],
            MaterialType::Abs => seq!['A', 'B', 'S'],
            MaterialType::Asa => seq!['A', 'S', 'A'],
            MaterialType::Pc => seq!['P', 'C'],
            MaterialType::Pctg => seq!['P', 'C', 'T', 'G'],
            MaterialType::Pp => seq!['P', 'P'],
            MaterialType::Pa6 => seq!['P', 'A', '6'],
            MaterialType::Pa11 => seq!['P', 'A', '1', '1'],
            MaterialType::Pa12 => seq!['P', 'A', '1', '2'],
            MaterialType::Pa66 => seq!['P', 'A', '6', '6'],
            MaterialType::Cpe => seq!['C', 'P', 'E'],
            MaterialType::Tpe => seq!['T', 'P', 'E'],
            MaterialType::Hips => seq!['H', 'I', 'P', 'S'],
            MaterialType::Pha => seq!['P', 'H', 'A'],
            MaterialType::Pet => seq!['P', 'E', 'T'],
            MaterialType::Pei => seq!['P', 'E', 'I'],
            MaterialType::Pbt => seq!['P', 'B', 'T'],
            MaterialType::Pvb => seq!['P', 'V', 'B'],
            MaterialType::Pva => seq!['P', 'V', 'A'],
            MaterialType::Pekk => seq!['P', 'E', 'K', 'K'],
            MaterialType::Peek => seq!['P', 'E', 'E', 'K'],
            MaterialType::Bvoh => seq!['B', 'V', 'O', 'H'],
            MaterialType::Tpc => seq!['T', 'P', 'C'],
            MaterialType::Pps => seq!['P', 'P', 'S'],
            MaterialType::Ppsu => seq!['P', 'P', 'S', 'U'],
            MaterialType::Pvc => seq!['P', 'V', 'C'],
            MaterialType::Peba => seq!['P', 'E', 'B', 'A'],
            MaterialType::Pvdf => seq!['P', 'V', 'D', 'F'],
            MaterialType::Ppa => seq!['P', 'P', 'A'],
            MaterialType::Pcl => seq!['P', 'C', 'L'],
            MaterialType::Pes => seq!['P', 'E', 'S'],
            MaterialType::Pmma => seq!['P', 'M', 'M', 'A'],
            MaterialType::Pom => seq!['P', 'O', 'M'],
            MaterialType::Ppe => seq!['P', 'P', 'E'],
            MaterialType::Ps => seq!['P', 'S'],
            MaterialType::Psu => seq!['P', 'S', 'U'],
            MaterialType::Tpi => seq!['T', 'P', 'I'],
            MaterialType::Sbs => seq!['S', 'B', 'S'],
            MaterialType::Obc => seq!['O', 'B', 'C'],
            MaterialType::Eva => seq!['E', 'V', 'A'],
            MaterialType::Other(s) => s@,
        }
    }

    /// The full name of a known material, `None` for `Other`.
    pub open spec fn spec_full_name(&self) -> Option<Seq<char>> {
        match self {
            MaterialType::Pla => Some("Polylactic Acid"@),
            MaterialType::Petg => Some("Polyethylene Terephthalate Glycol"@),
            MaterialType::Tpu => Some("Thermoplastic Polyurethane"@),
            MaterialType::Abs => Some("Acrylonitrile Butadiene Styrene"@),
            MaterialType::Asa => Some("Acrylonitrile Styrene Acrylate"@),
            MaterialType::Pc => Some("Polycarbonate"@),
            MaterialType::Pctg => Some("Polycyclohexylenedimethylene Terephthalate Glycol"@),
            MaterialType::Pp => Some("Polypropylene"@),
            MaterialType::Pa6 => Some("Polyamide 6"@),
            MaterialType::Pa11 => Some("Polyamide 11"@),
            MaterialType::Pa12 => Some("Polyamide 12"@),
            MaterialType::Pa66 => Some("Polyamide 66"@),
            MaterialType::Cpe => Some("Copolyester"@),
            MaterialType::Tpe => Some("Thermoplastic Elastomer"@),
            MaterialType::Hips => Some("High Impact Polystyrene"@),
            MaterialType::Pha => Some("Polyhydroxyalkanoate"@),
            MaterialType::Pet => Some("Polyethylene Terephthalate"@),
            MaterialType::Pei => Some("Polyetherimide"@),
            MaterialType::Pbt => Some("Polybutylene Terephthalate"@),
            MaterialType::Pvb => Some("Polyvinyl Butyral"@),
            MaterialType::Pva => Some("Polyvinyl Alcohol"@),
            MaterialType::Pekk => Some("Polyetherketoneketone"@),
            MaterialType::Peek => Some("Polyether Ether Ketone"@),
            MaterialType::Bvoh => Some("Butenediol Vinyl Alcohol Copolymer"@),
            MaterialType::Tpc => Some("Thermoplastic Copolyester"@),
            MaterialType::Pps => Some("Polyphenylene Sulfide"@),
            MaterialType::Ppsu => Some("Polyphenylsulfone"@),
            MaterialType::Pvc => Some("Polyvinyl Chloride"@),
            MaterialType::Peba => Some("Polyether Block Amide"@),
            MaterialType::Pvdf => Some("Polyvinylidene Fluoride"@),
            MaterialType::Ppa => Some("Polyphthalamide"@),
            MaterialType::Pcl => Some("Polycaprolactone"@),
            MaterialType::Pes => Some("Polyethersulfone"@),
            MaterialType::Pmma => Some("Polymethyl Methacrylate"@),
            MaterialType::Pom => Some("Polyoxymethylene"@),
            MaterialType::Ppe => Some("Polyphenylene Ether"@),
            MaterialType::Ps => Some("Polystyrene"@),
            MaterialType::Psu => Some("Polysulfone"@),
            MaterialType::Tpi => Some("Thermoplastic Polyimide"@),
            MaterialType::Sbs => Some("Styrene-Butadiene-Styrene"@),
            MaterialType::Obc => Some("Olefin Block Copolymer"@),
            MaterialType::Eva => Some("Ethylene Vinyl Acetate"@),
            MaterialType::Other(_) => None,
        }
    }

    /// The OpenPrintTag integer key of a known material, `None` for `Other`.
    pub open spec fn spec_key(&self) -> Option<u8> {
        match self {
            MaterialType::Pla => Some(0u8),
            MaterialType::Petg => Some(1u8),
            MaterialType::Tpu => Some(2u8),
            MaterialType::Abs => Some(3u8),
            MaterialType::Asa => Some(4u8),
            MaterialType::Pc => Some(5u8),
            MaterialType::Pctg => Some(6u8),
            MaterialType::Pp => Some(7u8),
            MaterialType::Pa6 => Some(8u8),
            MaterialType::Pa11 => Some(9u8),
            MaterialType::Pa12 => Some(10u8),
            MaterialType::Pa66 => Some(11u8),
            MaterialType::Cpe => Some(12u8),
            MaterialType::Tpe => Some(13u8),
            MaterialType::Hips => Some(14u8),
            MaterialType::Pha => Some(15u8),
            MaterialType::Pet => Some(16u8),
            MaterialType::Pei => Some(17u8),
            MaterialType::Pbt => Some(18u8),
            MaterialType::Pvb => Some(19u8),
            MaterialType::Pva => Some(20u8),
            MaterialType::Pekk => Some(21u8),
            MaterialType::Peek => Some(22u8),
            MaterialType::Bvoh => Some(23u8),
            MaterialType::Tpc => Some(24u8),
            MaterialType::Pps => Some(25u8),
            MaterialType::Ppsu => Some(26u8),
            MaterialType::Pvc => Some(27u8),
            MaterialType::Peba => Some(28u8),
            MaterialType::Pvdf => Some(29u8),
            MaterialType::Ppa => Some(30u8),
            MaterialType::Pcl => Some(31u8),
            MaterialType::Pes => Some(32u8),
            MaterialType::Pmma => Some(33u8),
            MaterialType::Pom => Some(34u8),
            MaterialType::Ppe => Some(35u8),
            MaterialType::Ps => Some(36u8),
            MaterialType::Psu => Some(37u8),
            MaterialType::Tpi => Some(38u8),
            MaterialType::Sbs => Some(39u8),
            MaterialType::Obc => Some(40u8),
            MaterialType::Eva => Some(41u8),
            MaterialType::Other(_) => None,
        }
    }

    /// Uppercase abbreviation as used in the OpenPrintTag spec and in data files.
    pub fn abbreviation(&self) -> (r: &str)
        ensures
            r@ == self.spec_abbreviation(),
    {
        match self {
            MaterialType::Pla => {
                proof { reveal_strlit("PLA"); }
                assert("PLA"@ =~= seq!['P', 'L', 'A']);
                "PLA"
            },
            MaterialType::Petg => {
                proof { reveal_strlit("PETG"); }
                assert("PETG"@ =~= seq!['P', 'E', 'T', 'G']);
                "PETG"
            },
            MaterialType::Tpu => {
                proof { reveal_strlit("TPU"); }
                assert("TPU"@ =~= seq!['T', 'P', 'U']);
                "TPU"
            },
            MaterialType::Abs => {
                proof { reveal_strlit("ABS"); }
                assert("ABS"@ =~= seq!['A', 'B', 'S']);
                "ABS"
            },
            MaterialType::Asa => {
                proof { reveal_strlit("ASA"); }
                assert("ASA"@ =~= seq!['A', 'S', 'A']);
                "ASA"
            },
            MaterialType::Pc => {
                proof { reveal_strlit("PC"); }
                assert("PC"@ =~= seq!['P', 'C']);
                "PC"
            },
            MaterialType::Pctg => {
                proof { reveal_strlit("PCTG"); }
                assert("PCTG"@ =~= seq!['P', 'C', 'T', 'G']);
                "PCTG"
            },
            MaterialType::Pp => {
                proof { reveal_strlit("PP"); }
                assert("PP"@ =~= seq!['P', 'P']);
                "PP"
            },
            MaterialType::Pa6 => {
                proof { reveal_strlit("PA6"); }
                assert("PA6"@ =~= seq!['P', 'A', '6']);
                "PA6"
            },
            MaterialType::Pa11 => {
                proof { reveal_strlit("PA11"); }
                assert("PA11"@ =~= seq!['P', 'A', '1', '1']);
                "PA11"
            },
            MaterialType::Pa12 => {
                proof { reveal_strlit("PA12"); }
                assert("PA12"@ =~= seq!['P', 'A', '1', '2']);
                "PA12"
            },
            MaterialType::Pa66 => {
                proof { reveal_strlit("PA66"); }
                assert("PA66"@ =~= seq!['P', 'A', '6', '6']);
                "PA66"
            },
            MaterialType::Cpe => {
                proof { reveal_strlit("CPE"); }
                assert("CPE"@ =~= seq!['C', 'P', 'E']);
                "CPE"
            },
            MaterialType::Tpe => {
                proof { reveal_strlit("TPE"); }
                assert("TPE"@ =~= seq!['T', 'P', 'E']);
                "TPE"
            },
            MaterialType::Hips => {
                proof { reveal_strlit("HIPS"); }
                assert("HIPS"@ =~= seq!['H', 'I', 'P', 'S']);
                "HIPS"
            },
            MaterialType::Pha => {
                proof { reveal_strlit("PHA"); }
                assert("PHA"@ =~= seq!['P', 'H', 'A']);
                "PHA"
            },
            MaterialType::Pet => {
                proof { reveal_strlit("PET"); }
                assert("PET"@ =~= seq!['P', 'E', 'T']);
                "PET"
            },
            MaterialType::Pei => {
                proof { reveal_strlit("PEI"); }
                assert("PEI"@ =~= seq!['P', 'E', 'I']);
                "PEI"
            },
            MaterialType::Pbt => {
                proof { reveal_strlit("PBT"); }
                assert("PBT"@ =~= seq!['P', 'B', 'T']);
                "PBT"
            },
            MaterialType::Pvb => {
                proof { reveal_strlit("PVB"); }
                assert("PVB"@ =~= seq!['P', 'V', 'B']);
                "PVB"
            },
            MaterialType::Pva => {
                proof { reveal_strlit("PVA"); }
                assert("PVA"@ =~= seq!['P', 'V', 'A']);
                "PVA"
            },
            MaterialType::Pekk => {
                proof { reveal_strlit("PEKK"); }
                assert("PEKK"@ =~= seq!['P', 'E', 'K', 'K']);
                "PEKK"
            },
            MaterialType::Peek => {
                proof { reveal_strlit("PEEK"); }
                assert("PEEK"@ =~= seq!['P', 'E', 'E', 'K']);
                "PEEK"
            },
            MaterialType::Bvoh => {
                proof { reveal_strlit("BVOH"); }
                assert("BVOH"@ =~= seq!['B', 'V', 'O', 'H']);
                "BVOH"
            },
            MaterialType::Tpc => {
                proof { reveal_strlit("TPC"); }
                assert("TPC"@ =~= seq!['T', 'P', 'C']);
                "TPC"
            },
            MaterialType::Pps => {
                proof { reveal_strlit("PPS"); }
                assert("PPS"@ =~= seq!['P', 'P', 'S']);
                "PPS"
            },
            MaterialType::Ppsu => {
                proof { reveal_strlit("PPSU"); }
                assert("PPSU"@ =~= seq!['P', 'P', 'S', 'U']);
                "PPSU"
            },
            MaterialType::Pvc => {
                proof { reveal_strlit("PVC"); }
                assert("PVC"@ =~= seq!['P', 'V', 'C']);
                "PVC"
            },
            MaterialType::Peba => {
                proof { reveal_strlit("PEBA"); }
                assert("PEBA"@ =~= seq!['P', 'E', 'B', 'A']);
                "PEBA"
            },
            MaterialType::Pvdf => {
                proof { reveal_strlit("PVDF"); }
                assert("PVDF"@ =~= seq!['P', 'V', 'D', 'F']);
                "PVDF"
            },
            MaterialType::Ppa => {
                proof { reveal_strlit("PPA"); }
                assert("PPA"@ =~= seq!['P', 'P', 'A']);
                "PPA"
            },
            MaterialType::Pcl => {
                proof { reveal_strlit("PCL"); }
                assert("PCL"@ =~= seq!['P', 'C', 'L']);
                "PCL"
            },
            MaterialType::Pes => {
                proof { reveal_strlit("PES"); }
                assert("PES"@ =~= seq!['P', 'E', 'S']);
                "PES"
            },
            MaterialType::Pmma => {
                proof { reveal_strlit("PMMA"); }
                assert("PMMA"@ =~= seq!['P', 'M', 'M', 'A']);
                "PMMA"
            },
            MaterialType::Pom => {
                proof { reveal_strlit("POM"); }
                assert("POM"@ =~= seq!['P', 'O', 'M']);
                "POM"
            },
            MaterialType::Ppe => {
                proof { reveal_strlit("PPE"); }
                assert("PPE"@ =~= seq!['P', 'P', 'E']);
                "PPE"
            },
            MaterialType::Ps => {
                proof { reveal_strlit("PS"); }
                assert("PS"@ =~= seq!['P', 'S']);
                "PS"
            },
            MaterialType::Psu => {
                proof { reveal_strlit("PSU"); }
                assert("PSU"@ =~= seq!['P', 'S', 'U']);
                "PSU"
            },
            MaterialType::Tpi => {
                proof { reveal_strlit("TPI"); }
                assert("TPI"@ =~= seq!['T', 'P', 'I']);
                "TPI"
            },
            MaterialType::Sbs => {
                proof { reveal_strlit("SBS"); }
                assert("SBS"@ =~= seq!['S', 'B', 'S']);
                "SBS"
            },
            MaterialType::Obc => {
                proof { reveal_strlit("OBC"); }
                assert("OBC"@ =~= seq!['O', 'B', 'C']);
                "OBC"
            },
            MaterialType::Eva => {
                proof { reveal_strlit("EVA"); }
                assert("EVA"@ =~= seq!['E', 'V', 'A']);
                "EVA"
            },
            MaterialType::Other(s) => s.as_str(),
        }
    }

    /// Full material name from the OpenPrintTag spec, or `None` for `Other`.
    pub fn full_name(&self) -> (r: Option<&'static str>)
        ensures
            match r {
                Some(n) => self.spec_full_name() == Some(n@),
                None => self.spec_full_name() is None,
            },
    {
        match self {
            MaterialType::Pla => Some("Polylactic Acid"),
            MaterialType::Petg => Some("Polyethylene Terephthalate Glycol"),
            MaterialType::Tpu => Some("Thermoplastic Polyurethane"),
            MaterialType::Abs => Some("Acrylonitrile Butadiene Styrene"),
            MaterialType::Asa => Some("Acrylonitrile Styrene Acrylate"),
            MaterialType::Pc => Some("Polycarbonate"),
            MaterialType::Pctg => Some("Polycyclohexylenedimethylene Terephthalate Glycol"),
            MaterialType::Pp => Some("Polypropylene"),
            MaterialType::Pa6 => Some("Polyamide 6"),
            MaterialType::Pa11 => Some("Polyamide 11"),
            MaterialType::Pa12 => Some("Polyamide 12"),
            MaterialType::Pa66 => Some("Polyamide 66"),
            MaterialType::Cpe => Some("Copolyester"),
            MaterialType::Tpe => Some("Thermoplastic Elastomer"),
            MaterialType::Hips => Some("High Impact Polystyrene"),
            MaterialType::Pha => Some("Polyhydroxyalkanoate"),
            MaterialType::Pet => Some("Polyethylene Terephthalate"),
            MaterialType::Pei => Some("Polyetherimide"),
            MaterialType::Pbt => Some("Polybutylene Terephthalate"),
            MaterialType::Pvb => Some("Polyvinyl Butyral"),
            MaterialType::Pva => Some("Polyvinyl Alcohol"),
            MaterialType::Pekk => Some("Polyetherketoneketone"),
            MaterialType::Peek => Some("Polyether Ether Ketone"),
            MaterialType::Bvoh => Some("Butenediol Vinyl Alcohol Copolymer"),
            MaterialType::Tpc => Some("Thermoplastic Copolyester"),
            MaterialType::Pps => Some("Polyphenylene Sulfide"),
            MaterialType::Ppsu => Some("Polyphenylsulfone"),
            MaterialType::Pvc => Some("Polyvinyl Chloride"),
            MaterialType::Peba => Some("Polyether Block Amide"),
            MaterialType::Pvdf => Some("Polyvinylidene Fluoride"),
            MaterialType::Ppa => Some("Polyphthalamide"),
            MaterialType::Pcl => Some("Polycaprolactone"),
            MaterialType::Pes => Some("Polyethersulfone"),
            MaterialType::Pmma => Some("Polymethyl Methacrylate"),
            MaterialType::Pom => Some("Polyoxymethylene"),
            MaterialType::Ppe => Some("Polyphenylene Ether"),
            MaterialType::Ps => Some("Polystyrene"),
            MaterialType::Psu => Some("Polysulfone"),
            MaterialType::Tpi => Some("Thermoplastic Polyimide"),
            MaterialType::Sbs => Some("Styrene-Butadiene-Styrene"),
            MaterialType::Obc => Some("Olefin Block Copolymer"),
            MaterialType::Eva => Some("Ethylene Vinyl Acetate"),
            MaterialType::Other(_) => None,
        }
    }

    /// Integer key from the OpenPrintTag spec (for NFC encoding), or `None` for `Other`.
    pub fn key(&self) -> (r: Option<u8>)
        ensures
            r == self.spec_key(),
    {
        match self {
            MaterialType::Pla => Some(0),
            MaterialType::Petg => Some(1),
            MaterialType::Tpu => Some(2),
            MaterialType::Abs => Some(3),
            MaterialType::Asa => Some(4),
            MaterialType::Pc => Some(5),
            MaterialType::Pctg => Some(6),
            MaterialType::Pp => Some(7),
            MaterialType::Pa6 => Some(8),
            MaterialType::Pa11 => Some(9),
            MaterialType::Pa12 => Some(10),
            MaterialType::Pa66 => Some(11),
            MaterialType::Cpe => Some(12),
            MaterialType::Tpe => Some(13),
            MaterialType::Hips => Some(14),
            MaterialType::Pha => Some(15),
            MaterialType::Pet => Some(16),
            MaterialType::Pei => Some(17),
            MaterialType::Pbt => Some(18),
            MaterialType::Pvb => Some(19),
            MaterialType::Pva => Some(20),
            MaterialType::Pekk => Some(21),
            MaterialType::Peek => Some(22),
            MaterialType::Bvoh => Some(23),
            MaterialType::Tpc => Some(24),
            MaterialType::Pps => Some(25),
            MaterialType::Ppsu => Some(26),
            MaterialType::Pvc => Some(27),
            MaterialType::Peba => Some(28),
            MaterialType::Pvdf => Some(29),
            MaterialType::Ppa => Some(30),
            MaterialType::Pcl => Some(31),
            MaterialType::Pes => Some(32),
            MaterialType::Pmma => Some(33),
            MaterialType::Pom => Some(34),
            MaterialType::Ppe => Some(35),
            MaterialType::Ps => Some(36),
            MaterialType::Psu => Some(37),
            MaterialType::Tpi => Some(38),
            MaterialType::Sbs => Some(39),
            MaterialType::Obc => Some(40),
            MaterialType::Eva => Some(41),
            MaterialType::Other(_) => None,
        }
    }
}

/// The known materials in spec order.
pub open spec fn spec_all_known() -> Seq<MaterialType> {
    seq![
        MaterialType::Pla,
        MaterialType::Petg,
        MaterialType::Tpu,
        MaterialType::Abs,
        MaterialType::Asa,
        MaterialType::Pc,
        MaterialType::Pctg,
        MaterialType::Pp,
        MaterialType::Pa6,
        MaterialType::Pa11,
        MaterialType::Pa12,
        MaterialType::Pa66,
        MaterialType::Cpe,
        MaterialType::Tpe,
        MaterialType::Hips,
        MaterialType::Pha,
        MaterialType::Pet,
        MaterialType::Pei,
        MaterialType::Pbt,
        MaterialType::Pvb,
        MaterialType::Pva,
        MaterialType::Pekk,
        MaterialType::Peek,
        MaterialType::Bvoh,
        MaterialType::Tpc,
        MaterialType::Pps,
        MaterialType::Ppsu,
        MaterialType::Pvc,
        MaterialType::Peba,
        MaterialType::Pvdf,
        MaterialType::Ppa,
        MaterialType::Pcl,
        MaterialType::Pes,
        MaterialType::Pmma,
        MaterialType::Pom,
        MaterialType::Ppe,
        MaterialType::Ps,
        MaterialType::Psu,
        MaterialType::Tpi,
        MaterialType::Sbs,
        MaterialType::Obc,
        MaterialType::Eva
    ]
}

/// The known material whose abbreviation is exactly `s`, if any.
pub open spec fn known_from_abbreviation(s: Seq<char>) -> Option<MaterialType> {
    if s == seq!['P', 'L', 'A'] {
        Some(MaterialType::Pla)
    } else if s == seq!['P', 'E', 'T', 'G'] {
        Some(MaterialType::Petg)
    } else if s == seq!['T', 'P', 'U'] {
        Some(MaterialType::Tpu)
    } else if s == seq!['A', 'B', 'S'] {
        Some(MaterialType::Abs)
    } else if s == seq!['A', 'S', 'A'] {
        Some(MaterialType::Asa)
    } else if s == seq!['P', 'C'] {
        Some(MaterialType::Pc)
    } else if s == seq!['P', 'C', 'T', 'G'] {
        Some(MaterialType::Pctg)
    } else if s == seq!['P', 'P'] {
        Some(MaterialType::Pp)
    } else if s == seq!['P', 'A', '6'] {
        Some(MaterialType::Pa6)
    } else if s == seq!['P', 'A', '1', '1'] {
        Some(MaterialType::Pa11)
    } else if s == seq!['P', 'A', '1', '2'] {
        Some(MaterialType::Pa12)
    } else if s == seq!['P', 'A', '6', '6'] {
        Some(MaterialType::Pa66)
    } else if s == seq!['C', 'P', 'E'] {
        Some(MaterialType::Cpe)
    } else if s == seq!['T', 'P', 'E'] {
        Some(MaterialType::Tpe)
    } else if s == seq!['H', 'I', 'P', 'S'] {
        Some(MaterialType::Hips)
    } else if s == seq!['P', 'H', 'A'] {
        Some(MaterialType::Pha)
    } else if s == seq!['P', 'E', 'T'] {
        Some(MaterialType::Pet)
    } else if s == seq!['P', 'E', 'I'] {
        Some(MaterialType::Pei)
    } else if s == seq!['P', 'B', 'T'] {
        Some(MaterialType::Pbt)
    } else if s == seq!['P', 'V', 'B'] {
        Some(MaterialType::Pvb)
    } else if s == seq!['P', 'V', 'A'] {
        Some(MaterialType::Pva)
    } else if s == seq!['P', 'E', 'K', 'K'] {
        Some(MaterialType::Pekk)
    } else if s == seq!['P', 'E', 'E', 'K'] {
        Some(MaterialType::Peek)
    } else if s == seq!['B', 'V', 'O', 'H'] {
        Some(MaterialType::Bvoh)
    } else if s == seq!['T', 'P', 'C'] {
        Some(MaterialType::Tpc)
    } else if s == seq!['P', 'P', 'S'] {
        Some(MaterialType::Pps)
    } else if s == seq!['P', 'P', 'S', 'U'] {
        Some(MaterialType::Ppsu)
    } else if s == seq!['P', 'V', 'C'] {
        Some(MaterialType::Pvc)
    } else if s == seq!['P', 'E', 'B', 'A'] {
        Some(MaterialType::Peba)
    } else if s == seq!['P', 'V', 'D', 'F'] {
        Some(MaterialType::Pvdf)
    } else if s == seq!['P', 'P', 'A'] {
        Some(MaterialType::Ppa)
    } else if s == seq!['P', 'C', 'L'] {
        Some(MaterialType::Pcl)
    } else if s == seq!['P', 'E', 'S'] {
        Some(MaterialType::Pes)
    } else if s == seq!['P', 'M', 'M', 'A'] {
        Some(MaterialType::Pmma)
    } else if s == seq!['P', 'O', 'M'] {
        Some(MaterialType::Pom)
    } else if s == seq!['P', 'P', 'E'] {
        Some(MaterialType::Ppe)
    } else if s == seq!['P', 'S'] {
        Some(MaterialType::Ps)
    } else if s == seq!['P', 'S', 'U'] {
        Some(MaterialType::Psu)
    } else if s == seq!['T', 'P', 'I'] {
        Some(MaterialType::Tpi)
    } else if s == seq!['S', 'B', 'S'] {
        Some(MaterialType::Sbs)
    } else if s == seq!['O', 'B', 'C'] {
        Some(MaterialType::Obc)
    } else if s == seq!['E', 'V', 'A'] {
        Some(MaterialType::Eva)
    } else {
        None
    }
}

impl MaterialType {
    /// All known material types in spec order.
    pub fn all_known() -> (r: Vec<MaterialType>)
        ensures
            r@ == spec_all_known(),
    {
        let r = vec![
            MaterialType::Pla,
            MaterialType::Petg,
            MaterialType::Tpu,
            MaterialType::Abs,
            MaterialType::Asa,
            MaterialType::Pc,
            MaterialType::Pctg,
            MaterialType::Pp,
            MaterialType::Pa6,
            MaterialType::Pa11,
            MaterialType::Pa12,
            MaterialType::Pa66,
            MaterialType::Cpe,
            MaterialType::Tpe,
            MaterialType::Hips,
            MaterialType::Pha,
            MaterialType::Pet,
            MaterialType::Pei,
            MaterialType::Pbt,
            MaterialType::Pvb,
            MaterialType::Pva,
            MaterialType::Pekk,
            MaterialType::Peek,
            MaterialType::Bvoh,
            MaterialType::Tpc,
            MaterialType::Pps,
            MaterialType::Ppsu,
            MaterialType::Pvc,
            MaterialType::Peba,
            MaterialType::Pvdf,
            MaterialType::Ppa,
            MaterialType::Pcl,
            MaterialType::Pes,
            MaterialType::Pmma,
            MaterialType::Pom,
            MaterialType::Ppe,
            MaterialType::Ps,
            MaterialType::Psu,
            MaterialType::Tpi,
            MaterialType::Sbs,
            MaterialType::Obc,
            MaterialType::Eva
        ];
        assert(r@ =~= spec_all_known());
        r
    }

    /// Parse a material abbreviation string into a `MaterialType`.
    /// Unknown strings become `Other(s)`.
    pub fn from_abbreviation(s: &str) -> (r: MaterialType)
        ensures
            match known_from_abbreviation(s@) {
                Some(m) => r == m,
                None => r matches MaterialType::Other(o) && o@ == s@,
            },
    {
        if str_eq(s, "PLA") {
            proof { reveal_strlit("PLA"); }
            assert("PLA"@ =~= seq!['P', 'L', 'A']);
            return MaterialType::Pla;
        }
        proof { reveal_strlit("PLA"); }
        assert("PLA"@ =~= seq!['P', 'L', 'A']);
        if str_eq(s, "PETG") {
            proof { reveal_strlit("PETG"); }
            assert("PETG"@ =~= seq!['P', 'E', 'T', 'G']);
            return MaterialType::Petg;
        }
        proof { reveal_strlit("PETG"); }
        assert("PETG"@ =~= seq!['P', 'E', 'T', 'G']);
        if str_eq(s, "TPU") {
            proof { reveal_strlit("TPU"); }
            assert("TPU"@ =~= seq!['T', 'P', 'U']);
            return MaterialType::Tpu;
        }
        proof { reveal_strlit("TPU"); }
        assert("TPU"@ =~= seq!['T', 'P', 'U']);
        if str_eq(s, "ABS") {
            proof { reveal_strlit("ABS"); }
            assert("ABS"@ =~= seq!['A', 'B', 'S']);
            return MaterialType::Abs;
        }
        proof { reveal_strlit("ABS"); }
        assert("ABS"@ =~= seq!['A', 'B', 'S']);
        if str_eq(s, "ASA") {
            proof { reveal_strlit("ASA"); }
            assert("ASA"@ =~= seq!['A', 'S', 'A']);
            return MaterialType::Asa;
        }
        proof { reveal_strlit("ASA"); }
        assert("ASA"@ =~= seq!['A', 'S', 'A']);
        if str_eq(s, "PC") {
            proof { reveal_strlit("PC"); }
            assert("PC"@ =~= seq!['P', 'C']);
            return MaterialType::Pc;
        }
        proof { reveal_strlit("PC"); }
        assert("PC"@ =~= seq!['P', 'C']);
        if str_eq(s, "PCTG") {
            proof { reveal_strlit("PCTG"); }
            assert("PCTG"@ =~= seq!['P', 'C', 'T', 'G']);
            return MaterialType::Pctg;
        }
        proof { reveal_strlit("PCTG"); }
        assert("PCTG"@ =~= seq!['P', 'C', 'T', 'G']);
        if str_eq(s, "PP") {
            proof { reveal_strlit("PP"); }
            assert("PP"@ =~= seq!['P', 'P']);
            return MaterialType::Pp;
        }
        proof { reveal_strlit("PP"); }
        assert("PP"@ =~= seq!['P', 'P']);
        if str_eq(s, "PA6") {
            proof { reveal_strlit("PA6"); }
            assert("PA6"@ =~= seq!['P', 'A', '6']);
            return MaterialType::Pa6;
        }
        proof { reveal_strlit("PA6"); }
        assert("PA6"@ =~= seq!['P', 'A', '6']);
        if str_eq(s, "PA11") {
            proof { reveal_strlit("PA11"); }
            assert("PA11"@ =~= seq!['P', 'A', '1', '1']);
            return MaterialType::Pa11;
        }
        proof { reveal_strlit("PA11"); }
        assert("PA11"@ =~= seq!['P', 'A', '1', '1']);
        if str_eq(s, "PA12") {
            proof { reveal_strlit("PA12"); }
            assert("PA12"@ =~= seq!['P', 'A', '1', '2']);
            return MaterialType::Pa12;
        }
        proof { reveal_strlit("PA12"); }
        assert("PA12"@ =~= seq!['P', 'A', '1', '2']);
        if str_eq(s, "PA66") {
            proof { reveal_strlit("PA66"); }
            assert("PA66"@ =~= seq!['P', 'A', '6', '6']);
            return MaterialType::Pa66;
        }
        proof { reveal_strlit("PA66"); }
        assert("PA66"@ =~= seq!['P', 'A', '6', '6']);
        if str_eq(s, "CPE") {
            proof { reveal_strlit("CPE"); }
            assert("CPE"@ =~= seq!['C', 'P', 'E']);
            return MaterialType::Cpe;
        }
        proof { reveal_strlit("CPE"); }
        assert("CPE"@ =~= seq!['C', 'P', 'E']);
        if str_eq(s, "TPE") {
            proof { reveal_strlit("TPE"); }
            assert("TPE"@ =~= seq!['T', 'P', 'E']);
            return MaterialType::Tpe;
        }
        proof { reveal_strlit("TPE"); }
        assert("TPE"@ =~= seq!['T', 'P', 'E']);
        if str_eq(s, "HIPS") {
            proof { reveal_strlit("HIPS"); }
            assert("HIPS"@ =~= seq!['H', 'I', 'P', 'S']);
            return MaterialType::Hips;
        }
        proof { reveal_strlit("HIPS"); }
        assert("HIPS"@ =~= seq!['H', 'I', 'P', 'S']);
        if str_eq(s, "PHA") {
            proof { reveal_strlit("PHA"); }
            assert("PHA"@ =~= seq!['P', 'H', 'A']);
            return MaterialType::Pha;
        }
        proof { reveal_strlit("PHA"); }
        assert("PHA"@ =~= seq!['P', 'H', 'A']);
        if str_eq(s, "PET") {
            proof { reveal_strlit("PET"); }
            assert("PET"@ =~= seq!['P', 'E', 'T']);
            return MaterialType::Pet;
        }
        proof { reveal_strlit("PET"); }
        assert("PET"@ =~= seq!['P', 'E', 'T']);
        if str_eq(s, "PEI") {
            proof { reveal_strlit("PEI"); }
            assert("PEI"@ =~= seq!['P', 'E', 'I']);
            return MaterialType::Pei;
        }
        proof { reveal_strlit("PEI"); }
        assert("PEI"@ =~= seq!['P', 'E', 'I']);
        if str_eq(s, "PBT") {
            proof { reveal_strlit("PBT"); }
            assert("PBT"@ =~= seq!['P', 'B', 'T']);
            return MaterialType::Pbt;
        }
        proof { reveal_strlit("PBT"); }
        assert("PBT"@ =~= seq!['P', 'B', 'T']);
        if str_eq(s, "PVB") {
            proof { reveal_strlit("PVB"); }
            assert("PVB"@ =~= seq!['P', 'V', 'B']);
            return MaterialType::Pvb;
        }
        proof { reveal_strlit("PVB"); }
        assert("PVB"@ =~= seq!['P', 'V', 'B']);
        if str_eq(s, "PVA") {
            proof { reveal_strlit("PVA"); }
            assert("PVA"@ =~= seq!['P', 'V', 'A']);
            return MaterialType::Pva;
        }
        proof { reveal_strlit("PVA"); }
        assert("PVA"@ =~= seq!['P', 'V', 'A']);
        if str_eq(s, "PEKK") {
            proof { reveal_strlit("PEKK"); }
            assert("PEKK"@ =~= seq!['P', 'E', 'K', 'K']);
            return MaterialType::Pekk;
        }
        proof { reveal_strlit("PEKK"); }
        assert("PEKK"@ =~= seq!['P', 'E', 'K', 'K']);
        if str_eq(s, "PEEK") {
            proof { reveal_strlit("PEEK"); }
            assert("PEEK"@ =~= seq!['P', 'E', 'E', 'K']);
            return MaterialType::Peek;
        }
        proof { reveal_strlit("PEEK"); }
        assert("PEEK"@ =~= seq!['P', 'E', 'E', 'K']);
        if str_eq(s, "BVOH") {
            proof { reveal_strlit("BVOH"); }
            assert("BVOH"@ =~= seq!['B', 'V', 'O', 'H']);
            return MaterialType::Bvoh;
        }
        proof { reveal_strlit("BVOH"); }
        assert("BVOH"@ =~= seq!['B', 'V', 'O', 'H']);
        if str_eq(s, "TPC") {
            proof { reveal_strlit("TPC"); }
            assert("TPC"@ =~= seq!['T', 'P', 'C']);
            return MaterialType::Tpc;
        }
        proof { reveal_strlit("TPC"); }
        assert("TPC"@ =~= seq!['T', 'P', 'C']);
        if str_eq(s, "PPS") {
            proof { reveal_strlit("PPS"); }
            assert("PPS"@ =~= seq!['P', 'P', 'S']);
            return MaterialType::Pps;
        }
        proof { reveal_strlit("PPS"); }
        assert("PPS"@ =~= seq!['P', 'P', 'S']);
        if str_eq(s, "PPSU") {
            proof { reveal_strlit("PPSU"); }
            assert("PPSU"@ =~= seq!['P', 'P', 'S', 'U']);
            return MaterialType::Ppsu;
        }
        proof { reveal_strlit("PPSU"); }
        assert("PPSU"@ =~= seq!['P', 'P', 'S', 'U']);
        if str_eq(s, "PVC") {
            proof { reveal_strlit("PVC"); }
            assert("PVC"@ =~= seq!['P', 'V', 'C']);
            return MaterialType::Pvc;
        }
        proof { reveal_strlit("PVC"); }
        assert("PVC"@ =~= seq!['P', 'V', 'C']);
        if str_eq(s, "PEBA") {
            proof { reveal_strlit("PEBA"); }
            assert("PEBA"@ =~= seq!['P', 'E', 'B', 'A']);
            return MaterialType::Peba;
        }
        proof { reveal_strlit("PEBA"); }
        assert("PEBA"@ =~= seq!['P', 'E', 'B', 'A']);
        if str_eq(s, "PVDF") {
            proof { reveal_strlit("PVDF"); }
            assert("PVDF"@ =~= seq!['P', 'V', 'D', 'F']);
            return MaterialType::Pvdf;
        }
        proof { reveal_strlit("PVDF"); }
        assert("PVDF"@ =~= seq!['P', 'V', 'D', 'F']);
        if str_eq(s, "PPA") {
            proof { reveal_strlit("PPA"); }
            assert("PPA"@ =~= seq!['P', 'P', 'A']);
            return MaterialType::Ppa;
        }
        proof { reveal_strlit("PPA"); }
        assert("PPA"@ =~= seq!['P', 'P', 'A']);
        if str_eq(s, "PCL") {
            proof { reveal_strlit("PCL"); }
            assert("PCL"@ =~= seq!['P', 'C', 'L']);
            return MaterialType::Pcl;
        }
        proof { reveal_strlit("PCL"); }
        assert("PCL"@ =~= seq!['P', 'C', 'L']);
        if str_eq(s, "PES") {
            proof { reveal_strlit("PES"); }
            assert("PES"@ =~= seq!['P', 'E', 'S']);
            return MaterialType::Pes;
        }
        proof { reveal_strlit("PES"); }
        assert("PES"@ =~= seq!['P', 'E', 'S']);
        if str_eq(s, "PMMA") {
            proof { reveal_strlit("PMMA"); }
            assert("PMMA"@ =~= seq!['P', 'M', 'M', 'A']);
            return MaterialType::Pmma;
        }
        proof { reveal_strlit("PMMA"); }
        assert("PMMA"@ =~= seq!['P', 'M', 'M', 'A']);
        if str_eq(s, "POM") {
            proof { reveal_strlit("POM"); }
            assert("POM"@ =~= seq!['P', 'O', 'M']);
            return MaterialType::Pom;
        }
        proof { reveal_strlit("POM"); }
        assert("POM"@ =~= seq!['P', 'O', 'M']);
        if str_eq(s, "PPE") {
            proof { reveal_strlit("PPE"); }
            assert("PPE"@ =~= seq!['P', 'P', 'E']);
            return MaterialType::Ppe;
        }
        proof { reveal_strlit("PPE"); }
        assert("PPE"@ =~= seq!['P', 'P', 'E']);
        if str_eq(s, "PS") {
            proof { reveal_strlit("PS"); }
            assert("PS"@ =~= seq!['P', 'S']);
            return MaterialType::Ps;
        }
        proof { reveal_strlit("PS"); }
        assert("PS"@ =~= seq!['P', 'S']);
        if str_eq(s, "PSU") {
            proof { reveal_strlit("PSU"); }
            assert("PSU"@ =~= seq!['P', 'S', 'U']);
            return MaterialType::Psu;
        }
        proof { reveal_strlit("PSU"); }
        assert("PSU"@ =~= seq!['P', 'S', 'U']);
        if str_eq(s, "TPI") {
            proof { reveal_strlit("TPI"); }
            assert("TPI"@ =~= seq!['T', 'P', 'I']);
            return MaterialType::Tpi;
        }
        proof { reveal_strlit("TPI"); }
        assert("TPI"@ =~= seq!['T', 'P', 'I']);
        if str_eq(s, "SBS") {
            proof { reveal_strlit("SBS"); }
            assert("SBS"@ =~= seq!['S', 'B', 'S']);
            return MaterialType::Sbs;
        }
        proof { reveal_strlit("SBS"); }
        assert("SBS"@ =~= seq!['S', 'B', 'S']);
        if str_eq(s, "OBC") {
            proof { reveal_strlit("OBC"); }
            assert("OBC"@ =~= seq!['O', 'B', 'C']);
            return MaterialType::Obc;
        }
        proof { reveal_strlit("OBC"); }
        assert("OBC"@ =~= seq!['O', 'B', 'C']);
        if str_eq(s, "EVA") {
            proof { reveal_strlit("EVA"); }
            assert("EVA"@ =~= seq!['E', 'V', 'A']);
            return MaterialType::Eva;
        }
        proof { reveal_strlit("EVA"); }
        assert("EVA"@ =~= seq!['E', 'V', 'A']);
        MaterialType::Other(s.to_owned())
    }
}

proof fn lemma_parses_pla()
    ensures
        known_from_abbreviation(seq!['P', 'L', 'A']) == Some(MaterialType::Pla),
{
}

proof fn lemma_parses_petg()
    ensures
        known_from_abbreviation(seq!['P', 'E', 'T', 'G']) == Some(MaterialType::Petg),
{
}

proof fn lemma_parses_tpu()
    ensures
        known_from_abbreviation(seq!['T', 'P', 'U']) == Some(MaterialType::Tpu),
{
    assert(seq!['T', 'P', 'U'] != seq!['P', 'L', 'A']);
}

proof fn lemma_parses_abs()
    ensures
        known_from_abbreviation(seq!['A', 'B', 'S']) == Some(MaterialType::Abs),
{
    assert(seq!['A', 'B', 'S'] != seq!['P', 'L', 'A']);
    assert(seq!['A', 'B', 'S'] != seq!['T', 'P', 'U']);
}

proof fn lemma_parses_asa()
    ensures
        known_from_abbreviation(seq!['A', 'S', 'A']) == Some(MaterialType::Asa),
{
    assert(seq!['A', 'S', 'A'] != seq!['P', 'L', 'A']);
    assert(seq!['A', 'S', 'A'] != seq!['T', 'P', 'U']);
    assert(seq!['A', 'S', 'A'] != seq!['A', 'B', 'S']);
}

proof fn lemma_parses_pc()
    ensures
        known_from_abbreviation(seq!['P', 'C']) == Some(MaterialType::Pc),
{
}

proof fn lemma_parses_pctg()
    ensures
        known_from_abbreviation(seq!['P', 'C', 'T', 'G']) == Some(MaterialType::Pctg),
{
    assert(seq!['P', 'C', 'T', 'G'] != seq!['P', 'E', 'T', 'G']);
    assert(seq!['P', 'C', 'T', 'G'].len() != seq!['P', 'C'].len());
}

proof fn lemma_parses_pp()
    ensures
        known_from_abbreviation(seq!['P', 'P']) == Some(MaterialType::Pp),
{
    assert(seq!['P', 'P'] != seq!['P', 'C']);
}

proof fn lemma_parses_pa6()
    ensures
        known_from_abbreviation(seq!['P', 'A', '6']) == Some(MaterialType::Pa6),
{
    assert(seq!['P', 'A', '6'] != seq!['P', 'L', 'A']);
    assert(seq!['P', 'A', '6'] != seq!['T', 'P', 'U']);
    assert(seq!['P', 'A', '6'] != seq!['A', 'B', 'S']);
    assert(seq!['P', 'A', '6'] != seq!['A', 'S', 'A']);
}

proof fn lemma_parses_pa11()
    ensures
        known_from_abbreviation(seq!['P', 'A', '1', '1']) == Some(MaterialType::Pa11),
{
    assert(seq!['P', 'A', '1', '1'] != seq!['P', 'E', 'T', 'G']);
    assert(seq!['P', 'A', '1', '1'] != seq!['P', 'C', 'T', 'G']);
}

proof fn lemma_parses_pa12()
    ensures
        known_from_abbreviation(seq!['P', 'A', '1', '2']) == Some(MaterialType::Pa12),
{
    assert(seq!['P', 'A', '1', '2'] != seq!['P', 'E', 'T', 'G']);
    assert(seq!['P', 'A', '1', '2'] != seq!['P', 'C', 'T', 'G']);
    assert(seq!['P', 'A', '1', '2'] != seq!['P', 'A', '1', '1']);
}

proof fn lemma_parses_pa66()
    ensures
        known_from_abbreviation(seq!['P', 'A', '6', '6']) == Some(MaterialType::Pa66),
{
    assert(seq!['P', 'A', '6', '6'] != seq!['P', 'E', 'T', 'G']);
    assert(seq!['P', 'A', '6', '6'] != seq!['P', 'C', 'T', 'G']);
    assert(seq!['P', 'A', '6', '6'].len() != seq!['P', 'A', '6'].len());
    assert(seq!['P', 'A', '6', '6'] != seq!['P', 'A', '1', '1']);
    assert(seq!['P', 'A', '6', '6'] != seq!['P', 'A', '1', '2']);
}

proof fn lemma_parses_cpe()
    ensures
        known_from_abbreviation(seq!['C', 'P', 'E']) == Some(MaterialType::Cpe),
{
    assert(seq!['C', 'P', 'E'] != seq!['P', 'L', 'A']);
    assert(seq!['C', 'P', 'E'] != seq!['T', 'P', 'U']);
    assert(seq!['C', 'P', 'E'] != seq!['A', 'B', 'S']);
    assert(seq!['C', 'P', 'E'] != seq!['A', 'S', 'A']);
    assert(seq!['C', 'P', 'E'] != seq!['P', 'A', '6']);
}

proof fn lemma_parses_tpe()
    ensures
        known_from_abbreviation(seq!['T', 'P', 'E']) == Some(MaterialType::Tpe),
{
    assert(seq!['T', 'P', 'E'] != seq!['P', 'L', 'A']);
    assert(seq!['T', 'P', 'E'] != seq!['T', 'P', 'U']);
    assert(seq!['T', 'P', 'E'] != seq!['A', 'B', 'S']);
    assert(seq!['T', 'P', 'E'] != seq!['A', 'S', 'A']);
    assert(seq!['T', 'P', 'E'] != seq!['P', 'A', '6']);
    assert(seq!['T', 'P', 'E'] != seq!['C', 'P', 'E']);
}

proof fn lemma_parses_hips()
    ensures
        known_from_abbreviation(seq!['H', 'I', 'P', 'S']) == Some(MaterialType::Hips),
{
    assert(seq!['H', 'I', 'P', 'S'] != seq!['P', 'E', 'T', 'G']);
    assert(seq!['H', 'I', 'P', 'S'] != seq!['P', 'C', 'T', 'G']);
    assert(seq!['H', 'I', 'P', 'S'] != seq!['P', 'A', '1', '1']);
    assert(seq!['H', 'I', 'P', 'S'] != seq!['P', 'A', '1', '2']);
    assert(seq!['H', 'I', 'P', 'S'] != seq!['P', 'A', '6', '6']);
}

proof fn lemma_parses_pha()
    ensures
        known_from_abbreviation(seq!['P', 'H', 'A']) == Some(MaterialType::Pha),
{
    assert(seq!['P', 'H', 'A'] != seq!['P', 'L', 'A']);
    assert(seq!['P', 'H', 'A'] != seq!['T', 'P', 'U']);
    assert(seq!['P', 'H', 'A'] != seq!['A', 'B', 'S']);
    assert(seq!['P', 'H', 'A'] != seq!['A', 'S', 'A']);
    assert(seq!['P', 'H', 'A'] != seq!['P', 'A', '6']);
    assert(seq!['P', 'H', 'A'] != seq!['C', 'P', 'E']);
    assert(seq!['P', 'H', 'A'] != seq!['T', 'P', 'E']);
}

proof fn lemma_parses_pet()
    ensures
        known_from_abbreviation(seq!['P', 'E', 'T']) == Some(MaterialType::Pet),
{
    assert(seq!['P', 'E', 'T'] != seq!['P', 'L', 'A']);
    assert(seq!['P', 'E', 'T'].len() != seq!['P', 'E', 'T', 'G'].len());
    assert(seq!['P', 'E', 'T'] != seq!['T', 'P', 'U']);
    assert(seq!['P', 'E', 'T'] != seq!['A', 'B', 'S']);
    assert(seq!['P', 'E', 'T'] != seq!['A', 'S', 'A']);
    assert(seq!['P', 'E', 'T'] != seq!['P', 'A', '6']);
    assert(seq!['P', 'E', 'T'] != seq!['C', 'P', 'E']);
    assert(seq!['P', 'E', 'T'] != seq!['T', 'P', 'E']);
    assert(seq!['P', 'E', 'T'] != seq!['P', 'H', 'A']);
}

proof fn lemma_parses_pei()
    ensures
        known_from_abbreviation(seq!['P', 'E', 'I']) == Some(MaterialType::Pei),
{
    assert(seq!['P', 'E', 'I'] != seq!['P', 'L', 'A']);
    assert(seq!['P', 'E', 'I'] != seq!['T', 'P', 'U']);
    assert(seq!['P', 'E', 'I'] != seq!['A', 'B', 'S']);
    assert(seq!['P', 'E', 'I'] != seq!['A', 'S', 'A']);
    assert(seq!['P', 'E', 'I'] != seq!['P', 'A', '6']);
    assert(seq!['P', 'E', 'I'] != seq!['C', 'P', 'E']);
    assert(seq!['P', 'E', 'I'] != seq!['T', 'P', 'E']);
    assert(seq!['P', 'E', 'I'] != seq!['P', 'H', 'A']);
    assert(seq!['P', 'E', 'I'] != seq!['P', 'E', 'T']);
}

proof fn lemma_parses_pbt()
    ensures
        known_from_abbreviation(seq!['P', 'B', 'T']) == Some(MaterialType::Pbt),
{
    assert(seq!['P', 'B', 'T'] != seq!['P', 'L', 'A']);
    assert(seq!['P', 'B', 'T'] != seq!['T', 'P', 'U']);
    assert(seq!['P', 'B', 'T'] != seq!['A', 'B', 'S']);
    assert(seq!['P', 'B', 'T'] != seq!['A', 'S', 'A']);
    assert(seq!['P', 'B', 'T'] != seq!['P', 'A', '6']);
    assert(seq!['P', 'B', 'T'] != seq!['C', 'P', 'E']);
    assert(seq!['P', 'B', 'T'] != seq!['T', 'P', 'E']);
    assert(seq!['P', 'B', 'T'] != seq!['P', 'H', 'A']);
    assert(seq!['P', 'B', 'T'] != seq!['P', 'E', 'T']);
    assert(seq!['P', 'B', 'T'] != seq!['P', 'E', 'I']);
}

proof fn lemma_parses_pvb()
    ensures
        known_from_abbreviation(seq!['P', 'V', 'B']) == Some(MaterialType::Pvb),
{
    assert(seq!['P', 'V', 'B'] != seq!['P', 'L', 'A']);
    assert(seq!['P', 'V', 'B'] != seq!['T', 'P', 'U']);
    assert(seq!['P', 'V', 'B'] != seq!['A', 'B', 'S']);
    assert(seq!['P', 'V', 'B'] != seq!['A', 'S', 'A']);
    assert(seq!['P', 'V', 'B'] != seq!['P', 'A', '6']);
    assert(seq!['P', 'V', 'B'] != seq!['C', 'P', 'E']);
    assert(seq!['P', 'V', 'B'] != seq!['T', 'P', 'E']);
    assert(seq!['P', 'V', 'B'] != seq!['P', 'H', 'A']);
    assert(seq!['P', 'V', 'B'] != seq!['P', 'E', 'T']);
    assert(seq!['P', 'V', 'B'] != seq!['P', 'E', 'I']);
    assert(seq!['P', 'V', 'B'] != seq!['P', 'B', 'T']);
}

proof fn lemma_parses_pva()
    ensures
        known_from_abbreviation(seq!['P', 'V', 'A']) == Some(MaterialType::Pva),
{
    assert(seq!['P', 'V', 'A'] != seq!['P', 'L', 'A']);
    assert(seq!['P', 'V', 'A'] != seq!['T', 'P', 'U']);
    assert(seq!['P', 'V', 'A'] != seq!['A', 'B', 'S']);
    assert(seq!['P', 'V', 'A'] != seq!['A', 'S', 'A']);
    assert(seq!['P', 'V', 'A'] != seq!['P', 'A', '6']);
    assert(seq!['P', 'V', 'A'] != seq!['C', 'P', 'E']);
    assert(seq!['P', 'V', 'A'] != seq!['T', 'P', 'E']);
    assert(seq!['P', 'V', 'A'] != seq!['P', 'H', 'A']);
    assert(seq!['P', 'V', 'A'] != seq!['P', 'E', 'T']);
    assert(seq!['P', 'V', 'A'] != seq!['P', 'E', 'I']);
    assert(seq!['P', 'V', 'A'] != seq!['P', 'B', 'T']);
    assert(seq!['P', 'V', 'A'] != seq!['P', 'V', 'B']);
}

proof fn lemma_parses_pekk()
    ensures
        known_from_abbreviation(seq!['P', 'E', 'K', 'K']) == Some(MaterialType::Pekk),
{
    assert(seq!['P', 'E', 'K', 'K'] != seq!['P', 'E', 'T', 'G']);
    assert(seq!['P', 'E', 'K', 'K'] != seq!['P', 'C', 'T', 'G']);
    assert(seq!['P', 'E', 'K', 'K'] != seq!['P', 'A', '1', '1']);
    assert(seq!['P', 'E', 'K', 'K'] != seq!['P', 'A', '1', '2']);
    assert(seq!['P', 'E', 'K', 'K'] != seq!['P', 'A', '6', '6']);
    assert(seq!['P', 'E', 'K', 'K'] != seq!['H', 'I', 'P', 'S']);
}

proof fn lemma_parses_peek()
    ensures
        known_from_abbreviation(seq!['P', 'E', 'E', 'K']) == Some(MaterialType::Peek),
{
    assert(seq!['P', 'E', 'E', 'K'] != seq!['P', 'E', 'T', 'G']);
    assert(seq!['P', 'E', 'E', 'K'] != seq!['P', 'C', 'T', 'G']);
    assert(seq!['P', 'E', 'E', 'K'] != seq!['P', 'A', '1', '1']);
    assert(seq!['P', 'E', 'E', 'K'] != seq!['P', 'A', '1', '2']);
    assert(seq!['P', 'E', 'E', 'K'] != seq!['P', 'A', '6', '6']);
    assert(seq!['P', 'E', 'E', 'K'] != seq!['H', 'I', 'P', 'S']);
    assert(seq!['P', 'E', 'E', 'K'] != seq!['P', 'E', 'K', 'K']);
}

proof fn lemma_parses_bvoh()
    ensures
        known_from_abbreviation(seq!['B', 'V', 'O', 'H']) == Some(MaterialType::Bvoh),
{
    assert(seq!['B', 'V', 'O', 'H'] != seq!['P', 'E', 'T', 'G']);
    assert(seq!['B', 'V', 'O', 'H'] != seq!['P', 'C', 'T', 'G']);
    assert(seq!['B', 'V', 'O', 'H'] != seq!['P', 'A', '1', '1']);
    assert(seq!['B', 'V', 'O', 'H'] != seq!['P', 'A', '1', '2']);
    assert(seq!['B', 'V', 'O', 'H'] != seq!['P', 'A', '6', '6']);
    assert(seq!['B', 'V', 'O', 'H'] != seq!['H', 'I', 'P', 'S']);
    assert(seq!['B', 'V', 'O', 'H'] != seq!['P', 'E', 'K', 'K']);
    assert(seq!['B', 'V', 'O', 'H'] != seq!['P', 'E', 'E', 'K']);
}

proof fn lemma_parses_tpc()
    ensures
        known_from_abbreviation(seq!['T', 'P', 'C']) == Some(MaterialType::Tpc),
{
    assert(seq!['T', 'P', 'C'] != seq!['P', 'L', 'A']);
    assert(seq!['T', 'P', 'C'] != seq!['T', 'P', 'U']);
    assert(seq!['T', 'P', 'C'] != seq!['A', 'B', 'S']);
    assert(seq!['T', 'P', 'C'] != seq!['A', 'S', 'A']);
    assert(seq!['T', 'P', 'C'] != seq!['P', 'A', '6']);
    assert(seq!['T', 'P', 'C'] != seq!['C', 'P', 'E']);
    assert(seq!['T', 'P', 'C'] != seq!['T', 'P', 'E']);
    assert(seq!['T', 'P', 'C'] != seq!['P', 'H', 'A']);
    assert(seq!['T', 'P', 'C'] != seq!['P', 'E', 'T']);
    assert(seq!['T', 'P', 'C'] != seq!['P', 'E', 'I']);
    assert(seq!['T', 'P', 'C'] != seq!['P', 'B', 'T']);
    assert(seq!['T', 'P', 'C'] != seq!['P', 'V', 'B']);
    assert(seq!['T', 'P', 'C'] != seq!['P', 'V', 'A']);
}

proof fn lemma_parses_pps()
    ensures
        known_from_abbreviation(seq!['P', 'P', 'S']) == Some(MaterialType::Pps),
{
    assert(seq!['P', 'P', 'S'] != seq!['P', 'L', 'A']);
    assert(seq!['P', 'P', 'S'] != seq!['T', 'P', 'U']);
    assert(seq!['P', 'P', 'S'] != seq!['A', 'B', 'S']);
    assert(seq!['P', 'P', 'S'] != seq!['A', 'S', 'A']);
    assert(seq!['P', 'P', 'S'].len() != seq!['P', 'P'].len());
    assert(seq!['P', 'P', 'S'] != seq!['P', 'A', '6']);
    assert(seq!['P', 'P', 'S'] != seq!['C', 'P', 'E']);
    assert(seq!['P', 'P', 'S'] != seq!['T', 'P', 'E']);
    assert(seq!['P', 'P', 'S'] != seq!['P', 'H', 'A']);
    assert(seq!['P', 'P', 'S'] != seq!['P', 'E', 'T']);
    assert(seq!['P', 'P', 'S'] != seq!['P', 'E', 'I']);
    assert(seq!['P', 'P', 'S'] != seq!['P', 'B', 'T']);
    assert(seq!['P', 'P', 'S'] != seq!['P', 'V', 'B']);
    assert(seq!['P', 'P', 'S'] != seq!['P', 'V', 'A']);
    assert(seq!['P', 'P', 'S'] != seq!['T', 'P', 'C']);
}

proof fn lemma_parses_ppsu()
    ensures
        known_from_abbreviation(seq!['P', 'P', 'S', 'U']) == Some(MaterialType::Ppsu),
{
    assert(seq!['P', 'P', 'S', 'U'] != seq!['P', 'E', 'T', 'G']);
    assert(seq!['P', 'P', 'S', 'U'] != seq!['P', 'C', 'T', 'G']);
    assert(seq!['P', 'P', 'S', 'U'].len() != seq!['P', 'P'].len());
    assert(seq!['P', 'P', 'S', 'U'] != seq!['P', 'A', '1', '1']);
    assert(seq!['P', 'P', 'S', 'U'] != seq!['P', 'A', '1', '2']);
    assert(seq!['P', 'P', 'S', 'U'] != seq!['P', 'A', '6', '6']);
    assert(seq!['P', 'P', 'S', 'U'] != seq!['H', 'I', 'P', 'S']);
    assert(seq!['P', 'P', 'S', 'U'] != seq!['P', 'E', 'K', 'K']);
    assert(seq!['P', 'P', 'S', 'U'] != seq!['P', 'E', 'E', 'K']);
    assert(seq!['P', 'P', 'S', 'U'] != seq!['B', 'V', 'O', 'H']);
    assert(seq!['P', 'P', 'S', 'U'].len() != seq!['P', 'P', 'S'].len());
}

proof fn lemma_parses_pvc()
    ensures
        known_from_abbreviation(seq!['P', 'V', 'C']) == Some(MaterialType::Pvc),
{
    assert(seq!['P', 'V', 'C'] != seq!['P', 'L', 'A']);
    assert(seq!['P', 'V', 'C'] != seq!['T', 'P', 'U']);
    assert(seq!['P', 'V', 'C'] != seq!['A', 'B', 'S']);
    assert(seq!['P', 'V', 'C'] != seq!['A', 'S', 'A']);
    assert(seq!['P', 'V', 'C'] != seq!['P', 'A', '6']);
    assert(seq!['P', 'V', 'C'] != seq!['C', 'P', 'E']);
    assert(seq!['P', 'V', 'C'] != seq!['T', 'P', 'E']);
    assert(seq!['P', 'V', 'C'] != seq!['P', 'H', 'A']);
    assert(seq!['P', 'V', 'C'] != seq!['P', 'E', 'T']);
    assert(seq!['P', 'V', 'C'] != seq!['P', 'E', 'I']);
    assert(seq!['P', 'V', 'C'] != seq!['P', 'B', 'T']);
    assert(seq!['P', 'V', 'C'] != seq!['P', 'V', 'B']);
    assert(seq!['P', 'V', 'C'] != seq!['P', 'V', 'A']);
    assert(seq!['P', 'V', 'C'] != seq!['T', 'P', 'C']);
    assert(seq!['P', 'V', 'C'] != seq!['P', 'P', 'S']);
}

proof fn lemma_parses_peba()
    ensures
        known_from_abbreviation(seq!['P', 'E', 'B', 'A']) == Some(MaterialType::Peba),
{
    assert(seq!['P', 'E', 'B', 'A'] != seq!['P', 'E', 'T', 'G']);
    assert(seq!['P', 'E', 'B', 'A'] != seq!['P', 'C', 'T', 'G']);
    assert(seq!['P', 'E', 'B', 'A'] != seq!['P', 'A', '1', '1']);
    assert(seq!['P', 'E', 'B', 'A'] != seq!['P', 'A', '1', '2']);
    assert(seq!['P', 'E', 'B', 'A'] != seq!['P', 'A', '6', '6']);
    assert(seq!['P', 'E', 'B', 'A'] != seq!['H', 'I', 'P', 'S']);
    assert(seq!['P', 'E', 'B', 'A'] != seq!['P', 'E', 'K', 'K']);
    assert(seq!['P', 'E', 'B', 'A'] != seq!['P', 'E', 'E', 'K']);
    assert(seq!['P', 'E', 'B', 'A'] != seq!['B', 'V', 'O', 'H']);
    assert(seq!['P', 'E', 'B', 'A'] != seq!['P', 'P', 'S', 'U']);
}

proof fn lemma_parses_pvdf()
    ensures
        known_from_abbreviation(seq!['P', 'V', 'D', 'F']) == Some(MaterialType::Pvdf),
{
    assert(seq!['P', 'V', 'D', 'F'] != seq!['P', 'E', 'T', 'G']);
    assert(seq!['P', 'V', 'D', 'F'] != seq!['P', 'C', 'T', 'G']);
    assert(seq!['P', 'V', 'D', 'F'] != seq!['P', 'A', '1', '1']);
    assert(seq!['P', 'V', 'D', 'F'] != seq!['P', 'A', '1', '2']);
    assert(seq!['P', 'V', 'D', 'F'] != seq!['P', 'A', '6', '6']);
    assert(seq!['P', 'V', 'D', 'F'] != seq!['H', 'I', 'P', 'S']);
    assert(seq!['P', 'V', 'D', 'F'] != seq!['P', 'E', 'K', 'K']);
    assert(seq!['P', 'V', 'D', 'F'] != seq!['P', 'E', 'E', 'K']);
    assert(seq!['P', 'V', 'D', 'F'] != seq!['B', 'V', 'O', 'H']);
    assert(seq!['P', 'V', 'D', 'F'] != seq!['P', 'P', 'S', 'U']);
    assert(seq!['P', 'V', 'D', 'F'] != seq!['P', 'E', 'B', 'A']);
}

proof fn lemma_parses_ppa()
    ensures
        known_from_abbreviation(seq!['P', 'P', 'A']) == Some(MaterialType::Ppa),
{
    assert(seq!['P', 'P', 'A'] != seq!['P', 'L', 'A']);
    assert(seq!['P', 'P', 'A'] != seq!['T', 'P', 'U']);
    assert(seq!['P', 'P', 'A'] != seq!['A', 'B', 'S']);
    assert(seq!['P', 'P', 'A'] != seq!['A', 'S', 'A']);
    assert(seq!['P', 'P', 'A'].len() != seq!['P', 'P'].len());
    assert(seq!['P', 'P', 'A'] != seq!['P', 'A', '6']);
    assert(seq!['P', 'P', 'A'] != seq!['C', 'P', 'E']);
    assert(seq!['P', 'P', 'A'] != seq!['T', 'P', 'E']);
    assert(seq!['P', 'P', 'A'] != seq!['P', 'H', 'A']);
    assert(seq!['P', 'P', 'A'] != seq!['P', 'E', 'T']);
    assert(seq!['P', 'P', 'A'] != seq!['P', 'E', 'I']);
    assert(seq!['P', 'P', 'A'] != seq!['P', 'B', 'T']);
    assert(seq!['P', 'P', 'A'] != seq!['P', 'V', 'B']);
    assert(seq!['P', 'P', 'A'] != seq!['P', 'V', 'A']);
    assert(seq!['P', 'P', 'A'] != seq!['T', 'P', 'C']);
    assert(seq!['P', 'P', 'A'] != seq!['P', 'P', 'S']);
    assert(seq!['P', 'P', 'A'] != seq!['P', 'V', 'C']);
}

proof fn lemma_parses_pcl()
    ensures
        known_from_abbreviation(seq!['P', 'C', 'L']) == Some(MaterialType::Pcl),
{
    assert(seq!['P', 'C', 'L'] != seq!['P', 'L', 'A']);
    assert(seq!['P', 'C', 'L'] != seq!['T', 'P', 'U']);
    assert(seq!['P', 'C', 'L'] != seq!['A', 'B', 'S']);
    assert(seq!['P', 'C', 'L'] != seq!['A', 'S', 'A']);
    assert(seq!['P', 'C', 'L'].len() != seq!['P', 'C'].len());
    assert(seq!['P', 'C', 'L'] != seq!['P', 'A', '6']);
    assert(seq!['P', 'C', 'L'] != seq!['C', 'P', 'E']);
    assert(seq!['P', 'C', 'L'] != seq!['T', 'P', 'E']);
    assert(seq!['P', 'C', 'L'] != seq!['P', 'H', 'A']);
    assert(seq!['P', 'C', 'L'] != seq!['P', 'E', 'T']);
    assert(seq!['P', 'C', 'L'] != seq!['P', 'E', 'I']);
    assert(seq!['P', 'C', 'L'] != seq!['P', 'B', 'T']);
    assert(seq!['P', 'C', 'L'] != seq!['P', 'V', 'B']);
    assert(seq!['P', 'C', 'L'] != seq!['P', 'V', 'A']);
    assert(seq!['P', 'C', 'L'] != seq!['T', 'P', 'C']);
    assert(seq!['P', 'C', 'L'] != seq!['P', 'P', 'S']);
    assert(seq!['P', 'C', 'L'] != seq!['P', 'V', 'C']);
    assert(seq!['P', 'C', 'L'] != seq!['P', 'P', 'A']);
}

proof fn lemma_parses_pes()
    ensures
        known_from_abbreviation(seq!['P', 'E', 'S']) == Some(MaterialType::Pes),
{
    assert(seq!['P', 'E', 'S'] != seq!['P', 'L', 'A']);
    assert(seq!['P', 'E', 'S'] != seq!['T', 'P', 'U']);
    assert(seq!['P', 'E', 'S'] != seq!['A', 'B', 'S']);
    assert(seq!['P', 'E', 'S'] != seq!['A', 'S', 'A']);
    assert(seq!['P', 'E', 'S'] != seq!['P', 'A', '6']);
    assert(seq!['P', 'E', 'S'] != seq!['C', 'P', 'E']);
    assert(seq!['P', 'E', 'S'] != seq!['T', 'P', 'E']);
    assert(seq!['P', 'E', 'S'] != seq!['P', 'H', 'A']);
    assert(seq!['P', 'E', 'S'] != seq!['P', 'E', 'T']);
    assert(seq!['P', 'E', 'S'] != seq!['P', 'E', 'I']);
    assert(seq!['P', 'E', 'S'] != seq!['P', 'B', 'T']);
    assert(seq!['P', 'E', 'S'] != seq!['P', 'V', 'B']);
    assert(seq!['P', 'E', 'S'] != seq!['P', 'V', 'A']);
    assert(seq!['P', 'E', 'S'] != seq!['T', 'P', 'C']);
    assert(seq!['P', 'E', 'S'] != seq!['P', 'P', 'S']);
    assert(seq!['P', 'E', 'S'] != seq!['P', 'V', 'C']);
    assert(seq!['P', 'E', 'S'] != seq!['P', 'P', 'A']);
    assert(seq!['P', 'E', 'S'] != seq!['P', 'C', 'L']);
}

proof fn lemma_parses_pmma()
    ensures
        known_from_abbreviation(seq!['P', 'M', 'M', 'A']) == Some(MaterialType::Pmma),
{
    assert(seq!['P', 'M', 'M', 'A'] != seq!['P', 'E', 'T', 'G']);
    assert(seq!['P', 'M', 'M', 'A'] != seq!['P', 'C', 'T', 'G']);
    assert(seq!['P', 'M', 'M', 'A'] != seq!['P', 'A', '1', '1']);
    assert(seq!['P', 'M', 'M', 'A'] != seq!['P', 'A', '1', '2']);
    assert(seq!['P', 'M', 'M', 'A'] != seq!['P', 'A', '6', '6']);
    assert(seq!['P', 'M', 'M', 'A'] != seq!['H', 'I', 'P', 'S']);
    assert(seq!['P', 'M', 'M', 'A'] != seq!['P', 'E', 'K', 'K']);
    assert(seq!['P', 'M', 'M', 'A'] != seq!['P', 'E', 'E', 'K']);
    assert(seq!['P', 'M', 'M', 'A'] != seq!['B', 'V', 'O', 'H']);
    assert(seq!['P', 'M', 'M', 'A'] != seq!['P', 'P', 'S', 'U']);
    assert(seq!['P', 'M', 'M', 'A'] != seq!['P', 'E', 'B', 'A']);
    assert(seq!['P', 'M', 'M', 'A'] != seq!['P', 'V', 'D', 'F']);
}

proof fn lemma_parses_pom()
    ensures
        known_from_abbreviation(seq!['P', 'O', 'M']) == Some(MaterialType::Pom),
{
    assert(seq!['P', 'O', 'M'] != seq!['P', 'L', 'A']);
    assert(seq!['P', 'O', 'M'] != seq!['T', 'P', 'U']);
    assert(seq!['P', 'O', 'M'] != seq!['A', 'B', 'S']);
    assert(seq!['P', 'O', 'M'] != seq!['A', 'S', 'A']);
    assert(seq!['P', 'O', 'M'] != seq!['P', 'A', '6']);
    assert(seq!['P', 'O', 'M'] != seq!['C', 'P', 'E']);
    assert(seq!['P', 'O', 'M'] != seq!['T', 'P', 'E']);
    assert(seq!['P', 'O', 'M'] != seq!['P', 'H', 'A']);
    assert(seq!['P', 'O', 'M'] != seq!['P', 'E', 'T']);
    assert(seq!['P', 'O', 'M'] != seq!['P', 'E', 'I']);
    assert(seq!['P', 'O', 'M'] != seq!['P', 'B', 'T']);
    assert(seq!['P', 'O', 'M'] != seq!['P', 'V', 'B']);
    assert(seq!['P', 'O', 'M'] != seq!['P', 'V', 'A']);
    assert(seq!['P', 'O', 'M'] != seq!['T', 'P', 'C']);
    assert(seq!['P', 'O', 'M'] != seq!['P', 'P', 'S']);
    assert(seq!['P', 'O', 'M'] != seq!['P', 'V', 'C']);
    assert(seq!['P', 'O', 'M'] != seq!['P', 'P', 'A']);
    assert(seq!['P', 'O', 'M'] != seq!['P', 'C', 'L']);
    assert(seq!['P', 'O', 'M'] != seq!['P', 'E', 'S']);
}

proof fn lemma_parses_ppe()
    ensures
        known_from_abbreviation(seq!['P', 'P', 'E']) == Some(MaterialType::Ppe),
{
    assert(seq!['P', 'P', 'E'] != seq!['P', 'L', 'A']);
    assert(seq!['P', 'P', 'E'] != seq!['T', 'P', 'U']);
    assert(seq!['P', 'P', 'E'] != seq!['A', 'B', 'S']);
    assert(seq!['P', 'P', 'E'] != seq!['A', 'S', 'A']);
    assert(seq!['P', 'P', 'E'].len() != seq!['P', 'P'].len());
    assert(seq!['P', 'P', 'E'] != seq!['P', 'A', '6']);
    assert(seq!['P', 'P', 'E'] != seq!['C', 'P', 'E']);
    assert(seq!['P', 'P', 'E'] != seq!['T', 'P', 'E']);
    assert(seq!['P', 'P', 'E'] != seq!['P', 'H', 'A']);
    assert(seq!['P', 'P', 'E'] != seq!['P', 'E', 'T']);
    assert(seq!['P', 'P', 'E'] != seq!['P', 'E', 'I']);
    assert(seq!['P', 'P', 'E'] != seq!['P', 'B', 'T']);
    assert(seq!['P', 'P', 'E'] != seq!['P', 'V', 'B']);
    assert(seq!['P', 'P', 'E'] != seq!['P', 'V', 'A']);
    assert(seq!['P', 'P', 'E'] != seq!['T', 'P', 'C']);
    assert(seq!['P', 'P', 'E'] != seq!['P', 'P', 'S']);
    assert(seq!['P', 'P', 'E'] != seq!['P', 'V', 'C']);
    assert(seq!['P', 'P', 'E'] != seq!['P', 'P', 'A']);
    assert(seq!['P', 'P', 'E'] != seq!['P', 'C', 'L']);
    assert(seq!['P', 'P', 'E'] != seq!['P', 'E', 'S']);
    assert(seq!['P', 'P', 'E'] != seq!['P', 'O', 'M']);
}

proof fn lemma_parses_ps()
    ensures
        known_from_abbreviation(seq!['P', 'S']) == Some(MaterialType::Ps),
{
    assert(seq!['P', 'S'] != seq!['P', 'C']);
    assert(seq!['P', 'S'] != seq!['P', 'P']);
}

proof fn lemma_parses_psu()
    ensures
        known_from_abbreviation(seq!['P', 'S', 'U']) == Some(MaterialType::Psu),
{
    assert(seq!['P', 'S', 'U'] != seq!['P', 'L', 'A']);
    assert(seq!['P', 'S', 'U'] != seq!['T', 'P', 'U']);
    assert(seq!['P', 'S', 'U'] != seq!['A', 'B', 'S']);
    assert(seq!['P', 'S', 'U'] != seq!['A', 'S', 'A']);
    assert(seq!['P', 'S', 'U'] != seq!['P', 'A', '6']);
    assert(seq!['P', 'S', 'U'] != seq!['C', 'P', 'E']);
    assert(seq!['P', 'S', 'U'] != seq!['T', 'P', 'E']);
    assert(seq!['P', 'S', 'U'] != seq!['P', 'H', 'A']);
    assert(seq!['P', 'S', 'U'] != seq!['P', 'E', 'T']);
    assert(seq!['P', 'S', 'U'] != seq!['P', 'E', 'I']);
    assert(seq!['P', 'S', 'U'] != seq!['P', 'B', 'T']);
    assert(seq!['P', 'S', 'U'] != seq!['P', 'V', 'B']);
    assert(seq!['P', 'S', 'U'] != seq!['P', 'V', 'A']);
    assert(seq!['P', 'S', 'U'] != seq!['T', 'P', 'C']);
    assert(seq!['P', 'S', 'U'] != seq!['P', 'P', 'S']);
    assert(seq!['P', 'S', 'U'] != seq!['P', 'V', 'C']);
    assert(seq!['P', 'S', 'U'] != seq!['P', 'P', 'A']);
    assert(seq!['P', 'S', 'U'] != seq!['P', 'C', 'L']);
    assert(seq!['P', 'S', 'U'] != seq!['P', 'E', 'S']);
    assert(seq!['P', 'S', 'U'] != seq!['P', 'O', 'M']);
    assert(seq!['P', 'S', 'U'] != seq!['P', 'P', 'E']);
    assert(seq!['P', 'S', 'U'].len() != seq!['P', 'S'].len());
}

proof fn lemma_parses_tpi()
    ensures
        known_from_abbreviation(seq!['T', 'P', 'I']) == Some(MaterialType::Tpi),
{
    assert(seq!['T', 'P', 'I'] != seq!['P', 'L', 'A']);
    assert(seq!['T', 'P', 'I'] != seq!['T', 'P', 'U']);
    assert(seq!['T', 'P', 'I'] != seq!['A', 'B', 'S']);
    assert(seq!['T', 'P', 'I'] != seq!['A', 'S', 'A']);
    assert(seq!['T', 'P', 'I'] != seq!['P', 'A', '6']);
    assert(seq!['T', 'P', 'I'] != seq!['C', 'P', 'E']);
    assert(seq!['T', 'P', 'I'] != seq!['T', 'P', 'E']);
    assert(seq!['T', 'P', 'I'] != seq!['P', 'H', 'A']);
    assert(seq!['T', 'P', 'I'] != seq!['P', 'E', 'T']);
    assert(seq!['T', 'P', 'I'] != seq!['P', 'E', 'I']);
    assert(seq!['T', 'P', 'I'] != seq!['P', 'B', 'T']);
    assert(seq!['T', 'P', 'I'] != seq!['P', 'V', 'B']);
    assert(seq!['T', 'P', 'I'] != seq!['P', 'V', 'A']);
    assert(seq!['T', 'P', 'I'] != seq!['T', 'P', 'C']);
    assert(seq!['T', 'P', 'I'] != seq!['P', 'P', 'S']);
    assert(seq!['T', 'P', 'I'] != seq!['P', 'V', 'C']);
    assert(seq!['T', 'P', 'I'] != seq!['P', 'P', 'A']);
    assert(seq!['T', 'P', 'I'] != seq!['P', 'C', 'L']);
    assert(seq!['T', 'P', 'I'] != seq!['P', 'E', 'S']);
    assert(seq!['T', 'P', 'I'] != seq!['P', 'O', 'M']);
    assert(seq!['T', 'P', 'I'] != seq!['P', 'P', 'E']);
    assert(seq!['T', 'P', 'I'] != seq!['P', 'S', 'U']);
}

proof fn lemma_parses_sbs()
    ensures
        known_from_abbreviation(seq!['S', 'B', 'S']) == Some(MaterialType::Sbs),
{
    assert(seq!['S', 'B', 'S'] != seq!['P', 'L', 'A']);
    assert(seq!['S', 'B', 'S'] != seq!['T', 'P', 'U']);
    assert(seq!['S', 'B', 'S'] != seq!['A', 'B', 'S']);
    assert(seq!['S', 'B', 'S'] != seq!['A', 'S', 'A']);
    assert(seq!['S', 'B', 'S'] != seq!['P', 'A', '6']);
    assert(seq!['S', 'B', 'S'] != seq!['C', 'P', 'E']);
    assert(seq!['S', 'B', 'S'] != seq!['T', 'P', 'E']);
    assert(seq!['S', 'B', 'S'] != seq!['P', 'H', 'A']);
    assert(seq!['S', 'B', 'S'] != seq!['P', 'E', 'T']);
    assert(seq!['S', 'B', 'S'] != seq!['P', 'E', 'I']);
    assert(seq!['S', 'B', 'S'] != seq!['P', 'B', 'T']);
    assert(seq!['S', 'B', 'S'] != seq!['P', 'V', 'B']);
    assert(seq!['S', 'B', 'S'] != seq!['P', 'V', 'A']);
    assert(seq!['S', 'B', 'S'] != seq!['T', 'P', 'C']);
    assert(seq!['S', 'B', 'S'] != seq!['P', 'P', 'S']);
    assert(seq!['S', 'B', 'S'] != seq!['P', 'V', 'C']);
    assert(seq!['S', 'B', 'S'] != seq!['P', 'P', 'A']);
    assert(seq!['S', 'B', 'S'] != seq!['P', 'C', 'L']);
    assert(seq!['S', 'B', 'S'] != seq!['P', 'E', 'S']);
    assert(seq!['S', 'B', 'S'] != seq!['P', 'O', 'M']);
    assert(seq!['S', 'B', 'S'] != seq!['P', 'P', 'E']);
    assert(seq!['S', 'B', 'S'] != seq!['P', 'S', 'U']);
    assert(seq!['S', 'B', 'S'] != seq!['T', 'P', 'I']);
}

proof fn lemma_parses_obc()
    ensures
        known_from_abbreviation(seq!['O', 'B', 'C']) == Some(MaterialType::Obc),
{
    assert(seq!['O', 'B', 'C'] != seq!['P', 'L', 'A']);
    assert(seq!['O', 'B', 'C'] != seq!['T', 'P', 'U']);
    assert(seq!['O', 'B', 'C'] != seq!['A', 'B', 'S']);
    assert(seq!['O', 'B', 'C'] != seq!['A', 'S', 'A']);
    assert(seq!['O', 'B', 'C'] != seq!['P', 'A', '6']);
    assert(seq!['O', 'B', 'C'] != seq!['C', 'P', 'E']);
    assert(seq!['O', 'B', 'C'] != seq!['T', 'P', 'E']);
    assert(seq!['O', 'B', 'C'] != seq!['P', 'H', 'A']);
    assert(seq!['O', 'B', 'C'] != seq!['P', 'E', 'T']);
    assert(seq!['O', 'B', 'C'] != seq!['P', 'E', 'I']);
    assert(seq!['O', 'B', 'C'] != seq!['P', 'B', 'T']);
    assert(seq!['O', 'B', 'C'] != seq!['P', 'V', 'B']);
    assert(seq!['O', 'B', 'C'] != seq!['P', 'V', 'A']);
    assert(seq!['O', 'B', 'C'] != seq!['T', 'P', 'C']);
    assert(seq!['O', 'B', 'C'] != seq!['P', 'P', 'S']);
    assert(seq!['O', 'B', 'C'] != seq!['P', 'V', 'C']);
    assert(seq!['O', 'B', 'C'] != seq!['P', 'P', 'A']);
    assert(seq!['O', 'B', 'C'] != seq!['P', 'C', 'L']);
    assert(seq!['O', 'B', 'C'] != seq!['P', 'E', 'S']);
    assert(seq!['O', 'B', 'C'] != seq!['P', 'O', 'M']);
    assert(seq!['O', 'B', 'C'] != seq!['P', 'P', 'E']);
    assert(seq!['O', 'B', 'C'] != seq!['P', 'S', 'U']);
    assert(seq!['O', 'B', 'C'] != seq!['T', 'P', 'I']);
    assert(seq!['O', 'B', 'C'] != seq!['S', 'B', 'S']);
}

proof fn lemma_parses_eva()
    ensures
        known_from_abbreviation(seq!['E', 'V', 'A']) == Some(MaterialType::Eva),
{
    assert(seq!['E', 'V', 'A'] != seq!['P', 'L', 'A']);
    assert(seq!['E', 'V', 'A'] != seq!['T', 'P', 'U']);
    assert(seq!['E', 'V', 'A'] != seq!['A', 'B', 'S']);
    assert(seq!['E', 'V', 'A'] != seq!['A', 'S', 'A']);
    assert(seq!['E', 'V', 'A'] != seq!['P', 'A', '6']);
    assert(seq!['E', 'V', 'A'] != seq!['C', 'P', 'E']);
    assert(seq!['E', 'V', 'A'] != seq!['T', 'P', 'E']);
    assert(seq!['E', 'V', 'A'] != seq!['P', 'H', 'A']);
    assert(seq!['E', 'V', 'A'] != seq!['P', 'E', 'T']);
    assert(seq!['E', 'V', 'A'] != seq!['P', 'E', 'I']);
    assert(seq!['E', 'V', 'A'] != seq!['P', 'B', 'T']);
    assert(seq!['E', 'V', 'A'] != seq!['P', 'V', 'B']);
    assert(seq!['E', 'V', 'A'] != seq!['P', 'V', 'A']);
    assert(seq!['E', 'V', 'A'] != seq!['T', 'P', 'C']);
    assert(seq!['E', 'V', 'A'] != seq!['P', 'P', 'S']);
    assert(seq!['E', 'V', 'A'] != seq!['P', 'V', 'C']);
    assert(seq!['E', 'V', 'A'] != seq!['P', 'P', 'A']);
    assert(seq!['E', 'V', 'A'] != seq!['P', 'C', 'L']);
    assert(seq!['E', 'V', 'A'] != seq!['P', 'E', 'S']);
    assert(seq!['E', 'V', 'A'] != seq!['P', 'O', 'M']);
    assert(seq!['E', 'V', 'A'] != seq!['P', 'P', 'E']);
    assert(seq!['E', 'V', 'A'] != seq!['P', 'S', 'U']);
    assert(seq!['E', 'V', 'A'] != seq!['T', 'P', 'I']);
    assert(seq!['E', 'V', 'A'] != seq!['S', 'B', 'S']);
    assert(seq!['E', 'V', 'A'] != seq!['O', 'B', 'C']);
}

/// Parsing a known material's abbreviation gives that material back.
pub proof fn law_known_abbreviation_roundtrip(m: MaterialType)
    requires
        !(m is Other),
    ensures
        known_from_abbreviation(m.spec_abbreviation()) == Some(m),
{
    match m {
        MaterialType::Pla => lemma_parses_pla(),
        MaterialType::Petg => lemma_parses_petg(),
        MaterialType::Tpu => lemma_parses_tpu(),
        MaterialType::Abs => lemma_parses_abs(),
        MaterialType::Asa => lemma_parses_asa(),
        MaterialType::Pc => lemma_parses_pc(),
        MaterialType::Pctg => lemma_parses_pctg(),
        MaterialType::Pp => lemma_parses_pp(),
        MaterialType::Pa6 => lemma_parses_pa6(),
        MaterialType::Pa11 => lemma_parses_pa11(),
        MaterialType::Pa12 => lemma_parses_pa12(),
        MaterialType::Pa66 => lemma_parses_pa66(),
        MaterialType::Cpe => lemma_parses_cpe(),
        MaterialType::Tpe => lemma_parses_tpe(),
        MaterialType::Hips => lemma_parses_hips(),
        MaterialType::Pha => lemma_parses_pha(),
        MaterialType::Pet => lemma_parses_pet(),
        MaterialType::Pei => lemma_parses_pei(),
        MaterialType::Pbt => lemma_parses_pbt(),
        MaterialType::Pvb => lemma_parses_pvb(),
        MaterialType::Pva => lemma_parses_pva(),
        MaterialType::Pekk => lemma_parses_pekk(),
        MaterialType::Peek => lemma_parses_peek(),
        MaterialType::Bvoh => lemma_parses_bvoh(),
        MaterialType::Tpc => lemma_parses_tpc(),
        MaterialType::Pps => lemma_parses_pps(),
        MaterialType::Ppsu => lemma_parses_ppsu(),
        MaterialType::Pvc => lemma_parses_pvc(),
        MaterialType::Peba => lemma_parses_peba(),
        MaterialType::Pvdf => lemma_parses_pvdf(),
        MaterialType::Ppa => lemma_parses_ppa(),
        MaterialType::Pcl => lemma_parses_pcl(),
        MaterialType::Pes => lemma_parses_pes(),
        MaterialType::Pmma => lemma_parses_pmma(),
        MaterialType::Pom => lemma_parses_pom(),
        MaterialType::Ppe => lemma_parses_ppe(),
        MaterialType::Ps => lemma_parses_ps(),
        MaterialType::Psu => lemma_parses_psu(),
        MaterialType::Tpi => lemma_parses_tpi(),
        MaterialType::Sbs => lemma_parses_sbs(),
        MaterialType::Obc => lemma_parses_obc(),
        MaterialType::Eva => lemma_parses_eva(),
        MaterialType::Other(_) => {}
    }
}

/// Whatever string is parsed, the abbreviation of the result is that string.
pub proof fn law_parsed_abbreviation_is_input(s: Seq<char>)
    ensures
        known_from_abbreviation(s) matches Some(m) ==> m.spec_abbreviation() == s,
        known_from_abbreviation(s) matches Some(m) ==> !(m is Other),
{
}

/// The known materials are listed in key order: the material at position `i` has key `i`.
pub proof fn law_all_known_in_key_order(i: int)
    requires
        0 <= i < spec_all_known().len(),
    ensures
        spec_all_known().len() == 42,
        spec_all_known()[i].spec_key() == Some(i as u8),
        spec_all_known()[i].spec_full_name() is Some,
        !(spec_all_known()[i] is Other),
{
}

/// Two materials with the same key are the same material; `Other` has no key.
pub proof fn law_key_identifies_material(m1: MaterialType, m2: MaterialType)
    ensures
        m1.spec_key() is None <==> m1 is Other,
        m1.spec_full_name() is None <==> m1 is Other,
        m1.spec_key() is Some && m1.spec_key() == m2.spec_key() ==> m1 == m2,
{
}

} // verus!
