//! The ISO-4217 currency tags, each a zero-sized type so that amounts of
//! different currencies cannot be mixed at compile time. Every tag knows
//! its ticker and its issuer's name.

use vstd::prelude::*;

use crate::finances::Currency;

verus! {

#[derive(Debug, Clone, Copy, PartialEq, Eq, Default, Structural)]
pub struct AED;

impl Currency for AED {
    fn ticker(&self) -> (r: String)
        ensures
            r@ == "AED"@,
    {
        String::from_str("AED")
    }

    fn name(&self) -> (r: String)
        ensures
            r@ == "United Arab Emirates (The)"@,
    {
        String::from_str("United Arab Emirates (The)")
    }
}

#[derive(Debug, Clone, Copy, PartialEq, Eq, Default, Structural)]
pub struct AFN;

impl Currency for AFN {
    fn ticker(&self) -> (r: String)
        ensures
            r@ == "AFN"@,
    {
        String::from_str("AFN")
    }

    fn name(&self) -> (r: String)
        ensures
            r@ == "Afghanistan"@,
    {
        String::from_str("Afghanistan")
    }
}

#[derive(Debug, Clone, Copy, PartialEq, Eq, Default, Structural)]
pub struct ALL;

impl Currency for ALL {
    fn ticker(&self) -> (r: String)
        ensures
            r@ == "ALL"@,
    {
        String::from_str("ALL")
    }

    fn name(&self) -> (r: String)
        ensures
            r@ == "Albania"@,
    {
        String::from_str("Albania")
    }
}

#[derive(Debug, Clone, Copy, PartialEq, Eq, Default, Structural)]
pub struct AMD;

impl Currency for AMD {
    fn ticker(&self) -> (r: String)
        ensures
            r@ == "AMD"@,
    {
        String::from_str("AMD")
    }

    fn name(&self) -> (r: String)
        ensures
            r@ == "Armenia"@,
    {
        String::from_str("Armenia")
    }
}

#[derive(Debug, Clone, Copy, PartialEq, Eq, Default, Structural)]
pub struct ANG;

impl Currency for ANG {
    fn ticker(&self) -> (r: String)
        ensures
            r@ == "ANG"@,
    {
        String::from_str("ANG")
    }

    fn name(&self) -> (r: String)
        ensures
            r@ == "Curaçao"@,
    {
        String::from_str("Curaçao")
    }
}

#[derive(Debug, Clone, Copy, PartialEq, Eq, Default, Structural)]
pub struct AOA;

impl Currency for AOA {
    fn ticker(&self) -> (r: String)
        ensures
            r@ == "AOA"@,
    {
        String::from_str("AOA")
    }

    fn name(&self) -> (r: String)
        ensures
            r@ == "Angola"@,
    {
        String::from_str("Angola")
    }
}

#[derive(Debug, Clone, Copy, PartialEq, Eq, Default, Structural)]
pub struct ARS;

impl Currency for ARS {
    fn ticker(&self) -> (r: String)
        ensures
            r@ == "ARS"@,
    {
        String::from_str("ARS")
    }

    fn name(&self) -> (r: String)
        ensures
            r@ == "Argentina"@,
    {
        String::from_str("Argentina")
    }
}

#[derive(Debug, Clone, Copy, PartialEq, Eq, Default, Structural)]
pub struct AUD;

impl Currency for AUD {
    fn ticker(&self) -> (r: String)
        ensures
            r@ == "AUD"@,
    {
        String::from_str("AUD")
    }

    fn name(&self) -> (r: String)
        ensures
            r@ == "Australia"@,
    {
        String::from_str("Australia")
    }
}

#[derive(Debug, Clone, Copy, PartialEq, Eq, Default, Structural)]
pub struct AWG;

impl Currency for AWG {
    fn ticker(&self) -> (r: String)
        ensures
            r@ == "AWG"@,
    {
        String::from_str("AWG")
    }

    fn name(&self) -> (r: String)
        ensures
            r@ == "Aruba"@,
    {
        String::from_str("Aruba")
    }
}

#[derive(Debug, Clone, Copy, PartialEq, Eq, Default, Structural)]
pub struct AZN;

impl Currency for AZN {
    fn ticker(&self) -> (r: String)
        ensures
            r@ == "AZN"@,
    {
        String::from_str("AZN")
    }

    fn name(&self) -> (r: String)
        ensures
            r@ == "Azerbaijan"@,
    {
        String::from_str("Azerbaijan")
    }
}

#[derive(Debug, Clone, Copy, PartialEq, Eq, Default, Structural)]
pub struct BAM;

impl Currency for BAM {
    fn ticker(&self) -> (r: String)
        ensures
            r@ == "BAM"@,
    {
        String::from_str("BAM")
    }

    fn name(&self) -> (r: String)
        ensures
            r@ == "Bosnia And Herzegovina"@,
    {
        String::from_str("Bosnia And Herzegovina")
    }
}

#[derive(Debug, Clone, Copy, PartialEq, Eq, Default, Structural)]
pub struct BBD;

impl Currency for BBD {
    fn ticker(&self) -> (r: String)
        ensures
            r@ == "BBD"@,
    {
        String::from_str("BBD")
    }

    fn name(&self) -> (r: String)
        ensures
            r@ == "Barbados"@,
    {
        String::from_str("Barbados")
    }
}

#[derive(Debug, Clone, Copy, PartialEq, Eq, Default, Structural)]
pub struct BDT;

impl Currency for BDT {
    fn ticker(&self) -> (r: String)
        ensures
            r@ == "BDT"@,
    {
        String::from_str("BDT")
    }

    fn name(&self) -> (r: String)
        ensures
            r@ == "Bangladesh"@,
    {
        String::from_str("Bangladesh")
    }
}

#[derive(Debug, Clone, Copy, PartialEq, Eq, Default, Structural)]
pub struct BGN;

impl Currency for BGN {
    fn ticker(&self) -> (r: String)
        ensures
            r@ == "BGN"@,
    {
        String::from_str("BGN")
    }

    fn name(&self) -> (r: String)
        ensures
            r@ == "Bulgaria"@,
    {
        String::from_str("Bulgaria")
    }
}

#[derive(Debug, Clone, Copy, PartialEq, Eq, Default, Structural)]
pub struct BHD;

impl Currency for BHD {
    fn ticker(&self) -> (r: String)
        ensures
            r@ == "BHD"@,
    {
        String::from_str("BHD")
    }

    fn name(&self) -> (r: String)
        ensures
            r@ == "Bahrain"@,
    {
        String::from_str("Bahrain")
    }
}

#[derive(Debug, Clone, Copy, PartialEq, Eq, Default, Structural)]
pub struct BIF;

impl Currency for BIF {
    fn ticker(&self) -> (r: String)
        ensures
            r@ == "BIF"@,
    {
        String::from_str("BIF")
    }

    fn name(&self) -> (r: String)
        ensures
            r@ == "Burundi"@,
    {
        String::from_str("Burundi")
    }
}

#[derive(Debug, Clone, Copy, PartialEq, Eq, Default, Structural)]
pub struct BMD;

impl Currency for BMD {
    fn ticker(&self) -> (r: String)
        ensures
            r@ == "BMD"@,
    {
        String::from_str("BMD")
    }

    fn name(&self) -> (r: String)
        ensures
            r@ == "Bermuda"@,
    {
        String::from_str("Bermuda")
    }
}

#[derive(Debug, Clone, Copy, PartialEq, Eq, Default, Structural)]
pub struct BND;

impl Currency for BND {
    fn ticker(&self) -> (r: String)
        ensures
            r@ == "BND"@,
    {
        String::from_str("BND")
    }

    fn name(&self) -> (r: String)
        ensures
            r@ == "Brunei Darussalam"@,
    {
        String::from_str("Brunei Darussalam")
    }
}

#[derive(Debug, Clone, Copy, PartialEq, Eq, Default, Structural)]
pub struct BOB;

impl Currency for BOB {
    fn ticker(&self) -> (r: String)
        ensures
            r@ == "BOB"@,
    {
        String::from_str("BOB")
    }

    fn name(&self) -> (r: String)
        ensures
            r@ == "Bolivia (Plurinational State Of)"@,
    {
        String::from_str("Bolivia (Plurinational State Of)")
    }
}

#[derive(Debug, Clone, Copy, PartialEq, Eq, Default, Structural)]
pub struct BOV;

impl Currency for BOV {
    fn ticker(&self) -> (r: String)
        ensures
            r@ == "BOV"@,
    {
        String::from_str("BOV")
    }

    fn name(&self) -> (r: String)
        ensures
            r@ == "Bolivia (Plurinational State Of)"@,
    {
        String::from_str("Bolivia (Plurinational State Of)")
    }
}

#[derive(Debug, Clone, Copy, PartialEq, Eq, Default, Structural)]
pub struct BRL;

impl Currency for BRL {
    fn ticker(&self) -> (r: String)
        ensures
            r@ == "BRL"@,
    {
        String::from_str("BRL")
    }

    fn name(&self) -> (r: String)
        ensures
            r@ == "Brazil"@,
    {
        String::from_str("Brazil")
    }
}

#[derive(Debug, Clone, Copy, PartialEq, Eq, Default, Structural)]
pub struct BSD;

impl Currency for BSD {
    fn ticker(&self) -> (r: String)
        ensures
            r@ == "BSD"@,
    {
        String::from_str("BSD")
    }

    fn name(&self) -> (r: String)
        ensures
            r@ == "Bahamas (The)"@,
    {
        String::from_str("Bahamas (The)")
    }
}

#[derive(Debug, Clone, Copy, PartialEq, Eq, Default, Structural)]
pub struct BTN;

impl Currency for BTN {
    fn ticker(&self) -> (r: String)
        ensures
            r@ == "BTN"@,
    {
        String::from_str("BTN")
    }

    fn name(&self) -> (r: String)
        ensures
            r@ == "Bhutan"@,
    {
        String::from_str("Bhutan")
    }
}

#[derive(Debug, Clone, Copy, PartialEq, Eq, Default, Structural)]
pub struct BWP;

impl Currency for BWP {
    fn ticker(&self) -> (r: String)
        ensures
            r@ == "BWP"@,
    {
        String::from_str("BWP")
    }

    fn name(&self) -> (r: String)
        ensures
            r@ == "Botswana"@,
    {
        String::from_str("Botswana")
    }
}

#[derive(Debug, Clone, Copy, PartialEq, Eq, Default, Structural)]
pub struct BYN;

impl Currency for BYN {
    fn ticker(&self) -> (r: String)
        ensures
            r@ == "BYN"@,
    {
        String::from_str("BYN")
    }

    fn name(&self) -> (r: String)
        ensures
            r@ == "Belarus"@,
    {
        String::from_str("Belarus")
    }
}

#[derive(Debug, Clone, Copy, PartialEq, Eq, Default, Structural)]
pub struct BZD;

impl Currency for BZD {
    fn ticker(&self) -> (r: String)
        ensures
            r@ == "BZD"@,
    {
        String::from_str("BZD")
    }

    fn name(&self) -> (r: String)
        ensures
            r@ == "Belize"@,
    {
        String::from_str("Belize")
    }
}

#[derive(Debug, Clone, Copy, PartialEq, Eq, Default, Structural)]
pub struct CAD;

impl Currency for CAD {
    fn ticker(&self) -> (r: String)
        ensures
            r@ == "CAD"@,
    {
        String::from_str("CAD")
    }

    fn name(&self) -> (r: String)
        ensures
            r@ == "Canada"@,
    {
        String::from_str("Canada")
    }
}

#[derive(Debug, Clone, Copy, PartialEq, Eq, Default, Structural)]
pub struct CDF;

impl Currency for CDF {
    fn ticker(&self) -> (r: String)
        ensures
            r@ == "CDF"@,
    {
        String::from_str("CDF")
    }

    fn name(&self) -> (r: String)
        ensures
            r@ == "Congo (The Democratic Republic Of The)"@,
    {
        String::from_str("Congo (The Democratic Republic Of The)")
    }
}

#[derive(Debug, Clone, Copy, PartialEq, Eq, Default, Structural)]
pub struct CHE;

impl Currency for CHE {
    fn ticker(&self) -> (r: String)
        ensures
            r@ == "CHE"@,
    {
        String::from_str("CHE")
    }

    fn name(&self) -> (r: String)
        ensures
            r@ == "Switzerland"@,
    {
        String::from_str("Switzerland")
    }
}

#[derive(Debug, Clone, Copy, PartialEq, Eq, Default, Structural)]
pub struct CHF;

impl Currency for CHF {
    fn ticker(&self) -> (r: String)
        ensures
            r@ == "CHF"@,
    {
        String::from_str("CHF")
    }

    fn name(&self) -> (r: String)
        ensures
            r@ == "Switzerland"@,
    {
        String::from_str("Switzerland")
    }
}

#[derive(Debug, Clone, Copy, PartialEq, Eq, Default, Structural)]
pub struct CHW;

impl Currency for CHW {
    fn ticker(&self) -> (r: String)
        ensures
            r@ == "CHW"@,
    {
        String::from_str("CHW")
    }

    fn name(&self) -> (r: String)
        ensures
            r@ == "Switzerland"@,
    {
        String::from_str("Switzerland")
    }
}

#[derive(Debug, Clone, Copy, PartialEq, Eq, Default, Structural)]
pub struct CLF;

impl Currency for CLF {
    fn ticker(&self) -> (r: String)
        ensures
            r@ == "CLF"@,
    {
        String::from_str("CLF")
    }

    fn name(&self) -> (r: String)
        ensures
            r@ == "Chile"@,
    {
        String::from_str("Chile")
    }
}

#[derive(Debug, Clone, Copy, PartialEq, Eq, Default, Structural)]
pub struct CLP;

impl Currency for CLP {
    fn ticker(&self) -> (r: String)
        ensures
            r@ == "CLP"@,
    {
        String::from_str("CLP")
    }

    fn name(&self) -> (r: String)
        ensures
            r@ == "Chile"@,
    {
        String::from_str("Chile")
    }
}

#[derive(Debug, Clone, Copy, PartialEq, Eq, Default, Structural)]
pub struct CNY;

impl Currency for CNY {
    fn ticker(&self) -> (r: String)
        ensures
            r@ == "CNY"@,
    {
        String::from_str("CNY")
    }

    fn name(&self) -> (r: String)
        ensures
            r@ == "China"@,
    {
        String::from_str("China")
    }
}

#[derive(Debug, Clone, Copy, PartialEq, Eq, Default, Structural)]
pub struct COP;

impl Currency for COP {
    fn ticker(&self) -> (r: String)
        ensures
            r@ == "COP"@,
    {
        String::from_str("COP")
    }

    fn name(&self) -> (r: String)
        ensures
            r@ == "Colombia"@,
    {
        String::from_str("Colombia")
    }
}

#[derive(Debug, Clone, Copy, PartialEq, Eq, Default, Structural)]
pub struct COU;

impl Currency for COU {
    fn ticker(&self) -> (r: String)
        ensures
            r@ == "COU"@,
    {
        String::from_str("COU")
    }

    fn name(&self) -> (r: String)
        ensures
            r@ == "Colombia"@,
    {
        String::from_str("Colombia")
    }
}

#[derive(Debug, Clone, Copy, PartialEq, Eq, Default, Structural)]
pub struct CRC;

impl Currency for CRC {
    fn ticker(&self) -> (r: String)
        ensures
            r@ == "CRC"@,
    {
        String::from_str("CRC")
    }

    fn name(&self) -> (r: String)
        ensures
            r@ == "Costa Rica"@,
    {
        String::from_str("Costa Rica")
    }
}

#[derive(Debug, Clone, Copy, PartialEq, Eq, Default, Structural)]
pub struct CUC;

impl Currency for CUC {
    fn ticker(&self) -> (r: String)
        ensures
            r@ == "CUC"@,
    {
        String::from_str("CUC")
    }

    fn name(&self) -> (r: String)
        ensures
            r@ == "Cuba"@,
    {
        String::from_str("Cuba")
    }
}

#[derive(Debug, Clone, Copy, PartialEq, Eq, Default, Structural)]
pub struct CUP;

impl Currency for CUP {
    fn ticker(&self) -> (r: String)
        ensures
            r@ == "CUP"@,
    {
        String::from_str("CUP")
    }

    fn name(&self) -> (r: String)
        ensures
            r@ == "Cuba"@,
    {
        String::from_str("Cuba")
    }
}

#[derive(Debug, Clone, Copy, PartialEq, Eq, Default, Structural)]
pub struct CVE;

impl Currency for CVE {
    fn ticker(&self) -> (r: String)
        ensures
            r@ == "CVE"@,
    {
        String::from_str("CVE")
    }

    fn name(&self) -> (r: String)
        ensures
            r@ == "Cabo Verde"@,
    {
        String::from_str("Cabo Verde")
    }
}

#[derive(Debug, Clone, Copy, PartialEq, Eq, Default, Structural)]
pub struct CZK;

impl Currency for CZK {
    fn ticker(&self) -> (r: String)
        ensures
            r@ == "CZK"@,
    {
        String::from_str("CZK")
    }

    fn name(&self) -> (r: String)
        ensures
            r@ == "Czechia"@,
    {
        String::from_str("Czechia")
    }
}

#[derive(Debug, Clone, Copy, PartialEq, Eq, Default, Structural)]
pub struct DJF;

impl Currency for DJF {
    fn ticker(&self) -> (r: String)
        ensures
            r@ == "DJF"@,
    {
        String::from_str("DJF")
    }

    fn name(&self) -> (r: String)
        ensures
            r@ == "Djibouti"@,
    {
        String::from_str("Djibouti")
    }
}

#[derive(Debug, Clone, Copy, PartialEq, Eq, Default, Structural)]
pub struct DKK;

impl Currency for DKK {
    fn ticker(&self) -> (r: String)
        ensures
            r@ == "DKK"@,
    {
        String::from_str("DKK")
    }

    fn name(&self) -> (r: String)
        ensures
            r@ == "Denmark"@,
    {
        String::from_str("Denmark")
    }
}

#[derive(Debug, Clone, Copy, PartialEq, Eq, Default, Structural)]
pub struct DOP;

impl Currency for DOP {
    fn ticker(&self) -> (r: String)
        ensures
            r@ == "DOP"@,
    {
        String::from_str("DOP")
    }

    fn name(&self) -> (r: String)
        ensures
            r@ == "Dominican Republic (The)"@,
    {
        String::from_str("Dominican Republic (The)")
    }
}

#[derive(Debug, Clone, Copy, PartialEq, Eq, Default, Structural)]
pub struct DZD;

impl Currency for DZD {
    fn ticker(&self) -> (r: String)
        ensures
            r@ == "DZD"@,
    {
        String::from_str("DZD")
    }

    fn name(&self) -> (r: String)
        ensures
            r@ == "Algeria"@,
    {
        String::from_str("Algeria")
    }
}

#[derive(Debug, Clone, Copy, PartialEq, Eq, Default, Structural)]
pub struct EGP;

impl Currency for EGP {
    fn ticker(&self) -> (r: String)
        ensures
            r@ == "EGP"@,
    {
        String::from_str("EGP")
    }

    fn name(&self) -> (r: String)
        ensures
            r@ == "Egypt"@,
    {
        String::from_str("Egypt")
    }
}

#[derive(Debug, Clone, Copy, PartialEq, Eq, Default, Structural)]
pub struct ERN;

impl Currency for ERN {
    fn ticker(&self) -> (r: String)
        ensures
            r@ == "ERN"@,
    {
        String::from_str("ERN")
    }

    fn name(&self) -> (r: String)
        ensures
            r@ == "Eritrea"@,
    {
        String::from_str("Eritrea")
    }
}

#[derive(Debug, Clone, Copy, PartialEq, Eq, Default, Structural)]
pub struct ETB;

impl Currency for ETB {
    fn ticker(&self) -> (r: String)
        ensures
            r@ == "ETB"@,
    {
        String::from_str("ETB")
    }

    fn name(&self) -> (r: String)
        ensures
            r@ == "Ethiopia"@,
    {
        String::from_str("Ethiopia")
    }
}

#[derive(Debug, Clone, Copy, PartialEq, Eq, Default, Structural)]
pub struct EUR;

impl Currency for EUR {
    fn ticker(&self) -> (r: String)
        ensures
            r@ == "EUR"@,
    {
        String::from_str("EUR")
    }

    fn name(&self) -> (r: String)
        ensures
            r@ == "European Union"@,
    {
        String::from_str("European Union")
    }
}

#[derive(Debug, Clone, Copy, PartialEq, Eq, Default, Structural)]
pub struct FJD;

impl Currency for FJD {
    fn ticker(&self) -> (r: String)
        ensures
            r@ == "FJD"@,
    {
        String::from_str("FJD")
    }

    fn name(&self) -> (r: String)
        ensures
            r@ == "Fiji"@,
    {
        String::from_str("Fiji")
    }
}

#[derive(Debug, Clone, Copy, PartialEq, Eq, Default, Structural)]
pub struct FKP;

impl Currency for FKP {
    fn ticker(&self) -> (r: String)
        ensures
            r@ == "FKP"@,
    {
        String::from_str("FKP")
    }

    fn name(&self) -> (r: String)
        ensures
            r@ == "Falkland Islands (The Malvinas)"@,
    {
        String::from_str("Falkland Islands (The Malvinas)")
    }
}

#[derive(Debug, Clone, Copy, PartialEq, Eq, Default, Structural)]
pub struct GBP;

impl Currency for GBP {
    fn ticker(&self) -> (r: String)
        ensures
            r@ == "GBP"@,
    {
        String::from_str("GBP")
    }

    fn name(&self) -> (r: String)
        ensures
            r@ == "United Kingdom Of Great Britain And Northern Ireland (The)"@,
    {
        String::from_str("United Kingdom Of Great Britain And Northern Ireland (The)")
    }
}

#[derive(Debug, Clone, Copy, PartialEq, Eq, Default, Structural)]
pub struct GEL;

impl Currency for GEL {
    fn ticker(&self) -> (r: String)
        ensures
            r@ == "GEL"@,
    {
        String::from_str("GEL")
    }

    fn name(&self) -> (r: String)
        ensures
            r@ == "Georgia"@,
    {
        String::from_str("Georgia")
    }
}

#[derive(Debug, Clone, Copy, PartialEq, Eq, Default, Structural)]
pub struct GHS;

impl Currency for GHS {
    fn ticker(&self) -> (r: String)
        ensures
            r@ == "GHS"@,
    {
        String::from_str("GHS")
    }

    fn name(&self) -> (r: String)
        ensures
            r@ == "Ghana"@,
    {
        String::from_str("Ghana")
    }
}

#[derive(Debug, Clone, Copy, PartialEq, Eq, Default, Structural)]
pub struct GIP;

impl Currency for GIP {
    fn ticker(&self) -> (r: String)
        ensures
            r@ == "GIP"@,
    {
        String::from_str("GIP")
    }

    fn name(&self) -> (r: String)
        ensures
            r@ == "Gibraltar"@,
    {
        String::from_str("Gibraltar")
    }
}

#[derive(Debug, Clone, Copy, PartialEq, Eq, Default, Structural)]
pub struct GMD;

impl Currency for GMD {
    fn ticker(&self) -> (r: String)
        ensures
            r@ == "GMD"@,
    {
        String::from_str("GMD")
    }

    fn name(&self) -> (r: String)
        ensures
            r@ == "Gambia (The)"@,
    {
        String::from_str("Gambia (The)")
    }
}

#[derive(Debug, Clone, Copy, PartialEq, Eq, Default, Structural)]
pub struct GNF;

impl Currency for GNF {
    fn ticker(&self) -> (r: String)
        ensures
            r@ == "GNF"@,
    {
        String::from_str("GNF")
    }

    fn name(&self) -> (r: String)
        ensures
            r@ == "Guinea"@,
    {
        String::from_str("Guinea")
    }
}

#[derive(Debug, Clone, Copy, PartialEq, Eq, Default, Structural)]
pub struct GTQ;

impl Currency for GTQ {
    fn ticker(&self) -> (r: String)
        ensures
            r@ == "GTQ"@,
    {
        String::from_str("GTQ")
    }

    fn name(&self) -> (r: String)
        ensures
            r@ == "Guatemala"@,
    {
        String::from_str("Guatemala")
    }
}

#[derive(Debug, Clone, Copy, PartialEq, Eq, Default, Structural)]
pub struct GYD;

impl Currency for GYD {
    fn ticker(&self) -> (r: String)
        ensures
            r@ == "GYD"@,
    {
        String::from_str("GYD")
    }

    fn name(&self) -> (r: String)
        ensures
            r@ == "Guyana"@,
    {
        String::from_str("Guyana")
    }
}

#[derive(Debug, Clone, Copy, PartialEq, Eq, Default, Structural)]
pub struct HKD;

impl Currency for HKD {
    fn ticker(&self) -> (r: String)
        ensures
            r@ == "HKD"@,
    {
        String::from_str("HKD")
    }

    fn name(&self) -> (r: String)
        ensures
            r@ == "Hong Kong"@,
    {
        String::from_str("Hong Kong")
    }
}

#[derive(Debug, Clone, Copy, PartialEq, Eq, Default, Structural)]
pub struct HNL;

impl Currency for HNL {
    fn ticker(&self) -> (r: String)
        ensures
            r@ == "HNL"@,
    {
        String::from_str("HNL")
    }

    fn name(&self) -> (r: String)
        ensures
            r@ == "Honduras"@,
    {
        String::from_str("Honduras")
    }
}

#[derive(Debug, Clone, Copy, PartialEq, Eq, Default, Structural)]
pub struct HRK;

impl Currency for HRK {
    fn ticker(&self) -> (r: String)
        ensures
            r@ == "HRK"@,
    {
        String::from_str("HRK")
    }

    fn name(&self) -> (r: String)
        ensures
            r@ == "Croatia"@,
    {
        String::from_str("Croatia")
    }
}

#[derive(Debug, Clone, Copy, PartialEq, Eq, Default, Structural)]
pub struct HTG;

impl Currency for HTG {
    fn ticker(&self) -> (r: String)
        ensures
            r@ == "HTG"@,
    {
        String::from_str("HTG")
    }

    fn name(&self) -> (r: String)
        ensures
            r@ == "Haiti"@,
    {
        String::from_str("Haiti")
    }
}

#[derive(Debug, Clone, Copy, PartialEq, Eq, Default, Structural)]
pub struct HUF;

impl Currency for HUF {
    fn ticker(&self) -> (r: String)
        ensures
            r@ == "HUF"@,
    {
        String::from_str("HUF")
    }

    fn name(&self) -> (r: String)
        ensures
            r@ == "Hungary"@,
    {
        String::from_str("Hungary")
    }
}

#[derive(Debug, Clone, Copy, PartialEq, Eq, Default, Structural)]
pub struct IDR;

impl Currency for IDR {
    fn ticker(&self) -> (r: String)
        ensures
            r@ == "IDR"@,
    {
        String::from_str("IDR")
    }

    fn name(&self) -> (r: String)
        ensures
            r@ == "Indonesia"@,
    {
        String::from_str("Indonesia")
    }
}

#[derive(Debug, Clone, Copy, PartialEq, Eq, Default, Structural)]
pub struct ILS;

impl Currency for ILS {
    fn ticker(&self) -> (r: String)
        ensures
            r@ == "ILS"@,
    {
        String::from_str("ILS")
    }

    fn name(&self) -> (r: String)
        ensures
            r@ == "Israel"@,
    {
        String::from_str("Israel")
    }
}

#[derive(Debug, Clone, Copy, PartialEq, Eq, Default, Structural)]
pub struct INR;

impl Currency for INR {
    fn ticker(&self) -> (r: String)
        ensures
            r@ == "INR"@,
    {
        String::from_str("INR")
    }

    fn name(&self) -> (r: String)
        ensures
            r@ == "India"@,
    {
        String::from_str("India")
    }
}

#[derive(Debug, Clone, Copy, PartialEq, Eq, Default, Structural)]
pub struct IQD;

impl Currency for IQD {
    fn ticker(&self) -> (r: String)
        ensures
            r@ == "IQD"@,
    {
        String::from_str("IQD")
    }

    fn name(&self) -> (r: String)
        ensures
            r@ == "Iraq"@,
    {
        String::from_str("Iraq")
    }
}

#[derive(Debug, Clone, Copy, PartialEq, Eq, Default, Structural)]
pub struct IRR;

impl Currency for IRR {
    fn ticker(&self) -> (r: String)
        ensures
            r@ == "IRR"@,
    {
        String::from_str("IRR")
    }

    fn name(&self) -> (r: String)
        ensures
            r@ == "Iran (Islamic Republic Of)"@,
    {
        String::from_str("Iran (Islamic Republic Of)")
    }
}

#[derive(Debug, Clone, Copy, PartialEq, Eq, Default, Structural)]
pub struct ISK;

impl Currency for ISK {
    fn ticker(&self) -> (r: String)
        ensures
            r@ == "ISK"@,
    {
        String::from_str("ISK")
    }

    fn name(&self) -> (r: String)
        ensures
            r@ == "Iceland"@,
    {
        String::from_str("Iceland")
    }
}

#[derive(Debug, Clone, Copy, PartialEq, Eq, Default, Structural)]
pub struct JMD;

impl Currency for JMD {
    fn ticker(&self) -> (r: String)
        ensures
            r@ == "JMD"@,
    {
        String::from_str("JMD")
    }

    fn name(&self) -> (r: String)
        ensures
            r@ == "Jamaica"@,
    {
        String::from_str("Jamaica")
    }
}

#[derive(Debug, Clone, Copy, PartialEq, Eq, Default, Structural)]
pub struct JOD;

impl Currency for JOD {
    fn ticker(&self) -> (r: String)
        ensures
            r@ == "JOD"@,
    {
        String::from_str("JOD")
    }

    fn name(&self) -> (r: String)
        ensures
            r@ == "Jordan"@,
    {
        String::from_str("Jordan")
    }
}

#[derive(Debug, Clone, Copy, PartialEq, Eq, Default, Structural)]
pub struct JPY;

impl Currency for JPY {
    fn ticker(&self) -> (r: String)
        ensures
            r@ == "JPY"@,
    {
        String::from_str("JPY")
    }

    fn name(&self) -> (r: String)
        ensures
            r@ == "Japan"@,
    {
        String::from_str("Japan")
    }
}

#[derive(Debug, Clone, Copy, PartialEq, Eq, Default, Structural)]
pub struct KES;

impl Currency for KES {
    fn ticker(&self) -> (r: String)
        ensures
            r@ == "KES"@,
    {
        String::from_str("KES")
    }

    fn name(&self) -> (r: String)
        ensures
            r@ == "Kenya"@,
    {
        String::from_str("Kenya")
    }
}

#[derive(Debug, Clone, Copy, PartialEq, Eq, Default, Structural)]
pub struct KGS;

impl Currency for KGS {
    fn ticker(&self) -> (r: String)
        ensures
            r@ == "KGS"@,
    {
        String::from_str("KGS")
    }

    fn name(&self) -> (r: String)
        ensures
            r@ == "Kyrgyzstan"@,
    {
        String::from_str("Kyrgyzstan")
    }
}

#[derive(Debug, Clone, Copy, PartialEq, Eq, Default, Structural)]
pub struct KHR;

impl Currency for KHR {
    fn ticker(&self) -> (r: String)
        ensures
            r@ == "KHR"@,
    {
        String::from_str("KHR")
    }

    fn name(&self) -> (r: String)
        ensures
            r@ == "Cambodia"@,
    {
        String::from_str("Cambodia")
    }
}

#[derive(Debug, Clone, Copy, PartialEq, Eq, Default, Structural)]
pub struct KMF;

impl Currency for KMF {
    fn ticker(&self) -> (r: String)
        ensures
            r@ == "KMF"@,
    {
        String::from_str("KMF")
    }

    fn name(&self) -> (r: String)
        ensures
            r@ == "Comoros (The)"@,
    {
        String::from_str("Comoros (The)")
    }
}

#[derive(Debug, Clone, Copy, PartialEq, Eq, Default, Structural)]
pub struct KPW;

impl Currency for KPW {
    fn ticker(&self) -> (r: String)
        ensures
            r@ == "KPW"@,
    {
        String::from_str("KPW")
    }

    fn name(&self) -> (r: String)
        ensures
            r@ == "Korea (The Democratic People'S Republic Of)"@,
    {
        String::from_str("Korea (The Democratic People'S Republic Of)")
    }
}

#[derive(Debug, Clone, Copy, PartialEq, Eq, Default, Structural)]
pub struct KRW;

impl Currency for KRW {
    fn ticker(&self) -> (r: String)
        ensures
            r@ == "KRW"@,
    {
        String::from_str("KRW")
    }

    fn name(&self) -> (r: String)
        ensures
            r@ == "Korea (The Republic Of)"@,
    {
        String::from_str("Korea (The Republic Of)")
    }
}

#[derive(Debug, Clone, Copy, PartialEq, Eq, Default, Structural)]
pub struct KWD;

impl Currency for KWD {
    fn ticker(&self) -> (r: String)
        ensures
            r@ == "KWD"@,
    {
        String::from_str("KWD")
    }

    fn name(&self) -> (r: String)
        ensures
            r@ == "Kuwait"@,
    {
        String::from_str("Kuwait")
    }
}

#[derive(Debug, Clone, Copy, PartialEq, Eq, Default, Structural)]
pub struct KYD;

impl Currency for KYD {
    fn ticker(&self) -> (r: String)
        ensures
            r@ == "KYD"@,
    {
        String::from_str("KYD")
    }

    fn name(&self) -> (r: String)
        ensures
            r@ == "Cayman Islands (The)"@,
    {
        String::from_str("Cayman Islands (The)")
    }
}

#[derive(Debug, Clone, Copy, PartialEq, Eq, Default, Structural)]
pub struct KZT;

impl Currency for KZT {
    fn ticker(&self) -> (r: String)
        ensures
            r@ == "KZT"@,
    {
        String::from_str("KZT")
    }

    fn name(&self) -> (r: String)
        ensures
            r@ == "Kazakhstan"@,
    {
        String::from_str("Kazakhstan")
    }
}

#[derive(Debug, Clone, Copy, PartialEq, Eq, Default, Structural)]
pub struct LAK;

impl Currency for LAK {
    fn ticker(&self) -> (r: String)
        ensures
            r@ == "LAK"@,
    {
        String::from_str("LAK")
    }

    fn name(&self) -> (r: String)
        ensures
            r@ == "Lao People'S Democratic Republic (The)"@,
    {
        String::from_str("Lao People'S Democratic Republic (The)")
    }
}

#[derive(Debug, Clone, Copy, PartialEq, Eq, Default, Structural)]
pub struct LBP;

impl Currency for LBP {
    fn ticker(&self) -> (r: String)
        ensures
            r@ == "LBP"@,
    {
        String::from_str("LBP")
    }

    fn name(&self) -> (r: String)
        ensures
            r@ == "Lebanon"@,
    {
        String::from_str("Lebanon")
    }
}

#[derive(Debug, Clone, Copy, PartialEq, Eq, Default, Structural)]
pub struct LKR;

impl Currency for LKR {
    fn ticker(&self) -> (r: String)
        ensures
            r@ == "LKR"@,
    {
        String::from_str("LKR")
    }

    fn name(&self) -> (r: String)
        ensures
            r@ == "Sri Lanka"@,
    {
        String::from_str("Sri Lanka")
    }
}

#[derive(Debug, Clone, Copy, PartialEq, Eq, Default, Structural)]
pub struct LRD;

impl Currency for LRD {
    fn ticker(&self) -> (r: String)
        ensures
            r@ == "LRD"@,
    {
        String::from_str("LRD")
    }

    fn name(&self) -> (r: String)
        ensures
            r@ == "Liberia"@,
    {
        String::from_str("Liberia")
    }
}

#[derive(Debug, Clone, Copy, PartialEq, Eq, Default, Structural)]
pub struct LSL;

impl Currency for LSL {
    fn ticker(&self) -> (r: String)
        ensures
            r@ == "LSL"@,
    {
        String::from_str("LSL")
    }

    fn name(&self) -> (r: String)
        ensures
            r@ == "Lesotho"@,
    {
        String::from_str("Lesotho")
    }
}

#[derive(Debug, Clone, Copy, PartialEq, Eq, Default, Structural)]
pub struct LYD;

impl Currency for LYD {
    fn ticker(&self) -> (r: String)
        ensures
            r@ == "LYD"@,
    {
        String::from_str("LYD")
    }

    fn name(&self) -> (r: String)
        ensures
            r@ == "Libya"@,
    {
        String::from_str("Libya")
    }
}

#[derive(Debug, Clone, Copy, PartialEq, Eq, Default, Structural)]
pub struct MAD;

impl Currency for MAD {
    fn ticker(&self) -> (r: String)
        ensures
            r@ == "MAD"@,
    {
        String::from_str("MAD")
    }

    fn name(&self) -> (r: String)
        ensures
            r@ == "Morocco"@,
    {
        String::from_str("Morocco")
    }
}

#[derive(Debug, Clone, Copy, PartialEq, Eq, Default, Structural)]
pub struct MDL;

impl Currency for MDL {
    fn ticker(&self) -> (r: String)
        ensures
            r@ == "MDL"@,
    {
        String::from_str("MDL")
    }

    fn name(&self) -> (r: String)
        ensures
            r@ == "Moldova (The Republic Of)"@,
    {
        String::from_str("Moldova (The Republic Of)")
    }
}

#[derive(Debug, Clone, Copy, PartialEq, Eq, Default, Structural)]
pub struct MGA;

impl Currency for MGA {
    fn ticker(&self) -> (r: String)
        ensures
            r@ == "MGA"@,
    {
        String::from_str("MGA")
    }

    fn name(&self) -> (r: String)
        ensures
            r@ == "Madagascar"@,
    {
        String::from_str("Madagascar")
    }
}

#[derive(Debug, Clone, Copy, PartialEq, Eq, Default, Structural)]
pub struct MKD;

impl Currency for MKD {
    fn ticker(&self) -> (r: String)
        ensures
            r@ == "MKD"@,
    {
        String::from_str("MKD")
    }

    fn name(&self) -> (r: String)
        ensures
            r@ == "North Macedonia"@,
    {
        String::from_str("North Macedonia")
    }
}

#[derive(Debug, Clone, Copy, PartialEq, Eq, Default, Structural)]
pub struct MMK;

impl Currency for MMK {
    fn ticker(&self) -> (r: String)
        ensures
            r@ == "MMK"@,
    {
        String::from_str("MMK")
    }

    fn name(&self) -> (r: String)
        ensures
            r@ == "Myanmar"@,
    {
        String::from_str("Myanmar")
    }
}

#[derive(Debug, Clone, Copy, PartialEq, Eq, Default, Structural)]
pub struct MNT;

impl Currency for MNT {
    fn ticker(&self) -> (r: String)
        ensures
            r@ == "MNT"@,
    {
        String::from_str("MNT")
    }

    fn name(&self) -> (r: String)
        ensures
            r@ == "Mongolia"@,
    {
        String::from_str("Mongolia")
    }
}

#[derive(Debug, Clone, Copy, PartialEq, Eq, Default, Structural)]
pub struct MOP;

impl Currency for MOP {
    fn ticker(&self) -> (r: String)
        ensures
            r@ == "MOP"@,
    {
        String::from_str("MOP")
    }

    fn name(&self) -> (r: String)
        ensures
            r@ == "Macao"@,
    {
        String::from_str("Macao")
    }
}

#[derive(Debug, Clone, Copy, PartialEq, Eq, Default, Structural)]
pub struct MRU;

impl Currency for MRU {
    fn ticker(&self) -> (r: String)
        ensures
            r@ == "MRU"@,
    {
        String::from_str("MRU")
    }

    fn name(&self) -> (r: String)
        ensures
            r@ == "Mauritania"@,
    {
        String::from_str("Mauritania")
    }
}

#[derive(Debug, Clone, Copy, PartialEq, Eq, Default, Structural)]
pub struct MUR;

impl Currency for MUR {
    fn ticker(&self) -> (r: String)
        ensures
            r@ == "MUR"@,
    {
        String::from_str("MUR")
    }

    fn name(&self) -> (r: String)
        ensures
            r@ == "Mauritius"@,
    {
        String::from_str("Mauritius")
    }
}

#[derive(Debug, Clone, Copy, PartialEq, Eq, Default, Structural)]
pub struct MVR;

impl Currency for MVR {
    fn ticker(&self) -> (r: String)
        ensures
            r@ == "MVR"@,
    {
        String::from_str("MVR")
    }

    fn name(&self) -> (r: String)
        ensures
            r@ == "Maldives"@,
    {
        String::from_str("Maldives")
    }
}

#[derive(Debug, Clone, Copy, PartialEq, Eq, Default, Structural)]
pub struct MWK;

impl Currency for MWK {
    fn ticker(&self) -> (r: String)
        ensures
            r@ == "MWK"@,
    {
        String::from_str("MWK")
    }

    fn name(&self) -> (r: String)
        ensures
            r@ == "Malawi"@,
    {
        String::from_str("Malawi")
    }
}

#[derive(Debug, Clone, Copy, PartialEq, Eq, Default, Structural)]
pub struct MXN;

impl Currency for MXN {
    fn ticker(&self) -> (r: String)
        ensures
            r@ == "MXN"@,
    {
        String::from_str("MXN")
    }

    fn name(&self) -> (r: String)
        ensures
            r@ == "Mexico"@,
    {
        String::from_str("Mexico")
    }
}

#[derive(Debug, Clone, Copy, PartialEq, Eq, Default, Structural)]
pub struct MXV;

impl Currency for MXV {
    fn ticker(&self) -> (r: String)
        ensures
            r@ == "MXV"@,
    {
        String::from_str("MXV")
    }

    fn name(&self) -> (r: String)
        ensures
            r@ == "Mexico"@,
    {
        String::from_str("Mexico")
    }
}

#[derive(Debug, Clone, Copy, PartialEq, Eq, Default, Structural)]
pub struct MYR;

impl Currency for MYR {
    fn ticker(&self) -> (r: String)
        ensures
            r@ == "MYR"@,
    {
        String::from_str("MYR")
    }

    fn name(&self) -> (r: String)
        ensures
            r@ == "Malaysia"@,
    {
        String::from_str("Malaysia")
    }
}

#[derive(Debug, Clone, Copy, PartialEq, Eq, Default, Structural)]
pub struct MZN;

impl Currency for MZN {
    fn ticker(&self) -> (r: String)
        ensures
            r@ == "MZN"@,
    {
        String::from_str("MZN")
    }

    fn name(&self) -> (r: String)
        ensures
            r@ == "Mozambique"@,
    {
        String::from_str("Mozambique")
    }
}

#[derive(Debug, Clone, Copy, PartialEq, Eq, Default, Structural)]
pub struct NAD;

impl Currency for NAD {
    fn ticker(&self) -> (r: String)
        ensures
            r@ == "NAD"@,
    {
        String::from_str("NAD")
    }

    fn name(&self) -> (r: String)
        ensures
            r@ == "Namibia"@,
    {
        String::from_str("Namibia")
    }
}

#[derive(Debug, Clone, Copy, PartialEq, Eq, Default, Structural)]
pub struct NGN;

impl Currency for NGN {
    fn ticker(&self) -> (r: String)
        ensures
            r@ == "NGN"@,
    {
        String::from_str("NGN")
    }

    fn name(&self) -> (r: String)
        ensures
            r@ == "Nigeria"@,
    {
        String::from_str("Nigeria")
    }
}

#[derive(Debug, Clone, Copy, PartialEq, Eq, Default, Structural)]
pub struct NIO;

impl Currency for NIO {
    fn ticker(&self) -> (r: String)
        ensures
            r@ == "NIO"@,
    {
        String::from_str("NIO")
    }

    fn name(&self) -> (r: String)
        ensures
            r@ == "Nicaragua"@,
    {
        String::from_str("Nicaragua")
    }
}

#[derive(Debug, Clone, Copy, PartialEq, Eq, Default, Structural)]
pub struct NOK;

impl Currency for NOK {
    fn ticker(&self) -> (r: String)
        ensures
            r@ == "NOK"@,
    {
        String::from_str("NOK")
    }

    fn name(&self) -> (r: String)
        ensures
            r@ == "Norway"@,
    {
        String::from_str("Norway")
    }
}

#[derive(Debug, Clone, Copy, PartialEq, Eq, Default, Structural)]
pub struct NPR;

impl Currency for NPR {
    fn ticker(&self) -> (r: String)
        ensures
            r@ == "NPR"@,
    {
        String::from_str("NPR")
    }

    fn name(&self) -> (r: String)
        ensures
            r@ == "Nepal"@,
    {
        String::from_str("Nepal")
    }
}

#[derive(Debug, Clone, Copy, PartialEq, Eq, Default, Structural)]
pub struct NZD;

impl Currency for NZD {
    fn ticker(&self) -> (r: String)
        ensures
            r@ == "NZD"@,
    {
        String::from_str("NZD")
    }

    fn name(&self) -> (r: String)
        ensures
            r@ == "New Zealand"@,
    {
        String::from_str("New Zealand")
    }
}

#[derive(Debug, Clone, Copy, PartialEq, Eq, Default, Structural)]
pub struct OMR;

impl Currency for OMR {
    fn ticker(&self) -> (r: String)
        ensures
            r@ == "OMR"@,
    {
        String::from_str("OMR")
    }

    fn name(&self) -> (r: String)
        ensures
            r@ == "Oman"@,
    {
        String::from_str("Oman")
    }
}

#[derive(Debug, Clone, Copy, PartialEq, Eq, Default, Structural)]
pub struct PAB;

impl Currency for PAB {
    fn ticker(&self) -> (r: String)
        ensures
            r@ == "PAB"@,
    {
        String::from_str("PAB")
    }

    fn name(&self) -> (r: String)
        ensures
            r@ == "Panama"@,
    {
        String::from_str("Panama")
    }
}

#[derive(Debug, Clone, Copy, PartialEq, Eq, Default, Structural)]
pub struct PEN;

impl Currency for PEN {
    fn ticker(&self) -> (r: String)
        ensures
            r@ == "PEN"@,
    {
        String::from_str("PEN")
    }

    fn name(&self) -> (r: String)
        ensures
            r@ == "Peru"@,
    {
        String::from_str("Peru")
    }
}

#[derive(Debug, Clone, Copy, PartialEq, Eq, Default, Structural)]
pub struct PGK;

impl Currency for PGK {
    fn ticker(&self) -> (r: String)
        ensures
            r@ == "PGK"@,
    {
        String::from_str("PGK")
    }

    fn name(&self) -> (r: String)
        ensures
            r@ == "Papua New Guinea"@,
    {
        String::from_str("Papua New Guinea")
    }
}

#[derive(Debug, Clone, Copy, PartialEq, Eq, Default, Structural)]
pub struct PHP;

impl Currency for PHP {
    fn ticker(&self) -> (r: String)
        ensures
            r@ == "PHP"@,
    {
        String::from_str("PHP")
    }

    fn name(&self) -> (r: String)
        ensures
            r@ == "Philippines (The)"@,
    {
        String::from_str("Philippines (The)")
    }
}

#[derive(Debug, Clone, Copy, PartialEq, Eq, Default, Structural)]
pub struct PKR;

impl Currency for PKR {
    fn ticker(&self) -> (r: String)
        ensures
            r@ == "PKR"@,
    {
        String::from_str("PKR")
    }

    fn name(&self) -> (r: String)
        ensures
            r@ == "Pakistan"@,
    {
        String::from_str("Pakistan")
    }
}

#[derive(Debug, Clone, Copy, PartialEq, Eq, Default, Structural)]
pub struct PLN;

impl Currency for PLN {
    fn ticker(&self) -> (r: String)
        ensures
            r@ == "PLN"@,
    {
        String::from_str("PLN")
    }

    fn name(&self) -> (r: String)
        ensures
            r@ == "Poland"@,
    {
        String::from_str("Poland")
    }
}

#[derive(Debug, Clone, Copy, PartialEq, Eq, Default, Structural)]
pub struct PYG;

impl Currency for PYG {
    fn ticker(&self) -> (r: String)
        ensures
            r@ == "PYG"@,
    {
        String::from_str("PYG")
    }

    fn name(&self) -> (r: String)
        ensures
            r@ == "Paraguay"@,
    {
        String::from_str("Paraguay")
    }
}

#[derive(Debug, Clone, Copy, PartialEq, Eq, Default, Structural)]
pub struct QAR;

impl Currency for QAR {
    fn ticker(&self) -> (r: String)
        ensures
            r@ == "QAR"@,
    {
        String::from_str("QAR")
    }

    fn name(&self) -> (r: String)
        ensures
            r@ == "Qatar"@,
    {
        String::from_str("Qatar")
    }
}

#[derive(Debug, Clone, Copy, PartialEq, Eq, Default, Structural)]
pub struct RON;

impl Currency for RON {
    fn ticker(&self) -> (r: String)
        ensures
            r@ == "RON"@,
    {
        String::from_str("RON")
    }

    fn name(&self) -> (r: String)
        ensures
            r@ == "Romania"@,
    {
        String::from_str("Romania")
    }
}

#[derive(Debug, Clone, Copy, PartialEq, Eq, Default, Structural)]
pub struct RSD;

impl Currency for RSD {
    fn ticker(&self) -> (r: String)
        ensures
            r@ == "RSD"@,
    {
        String::from_str("RSD")
    }

    fn name(&self) -> (r: String)
        ensures
            r@ == "Serbia"@,
    {
        String::from_str("Serbia")
    }
}

#[derive(Debug, Clone, Copy, PartialEq, Eq, Default, Structural)]
pub struct RUB;

impl Currency for RUB {
    fn ticker(&self) -> (r: String)
        ensures
            r@ == "RUB"@,
    {
        String::from_str("RUB")
    }

    fn name(&self) -> (r: String)
        ensures
            r@ == "Russian Federation (The)"@,
    {
        String::from_str("Russian Federation (The)")
    }
}

#[derive(Debug, Clone, Copy, PartialEq, Eq, Default, Structural)]
pub struct RWF;

impl Currency for RWF {
    fn ticker(&self) -> (r: String)
        ensures
            r@ == "RWF"@,
    {
        String::from_str("RWF")
    }

    fn name(&self) -> (r: String)
        ensures
            r@ == "Rwanda"@,
    {
        String::from_str("Rwanda")
    }
}

#[derive(Debug, Clone, Copy, PartialEq, Eq, Default, Structural)]
pub struct SAR;

impl Currency for SAR {
    fn ticker(&self) -> (r: String)
        ensures
            r@ == "SAR"@,
    {
        String::from_str("SAR")
    }

    fn name(&self) -> (r: String)
        ensures
            r@ == "Saudi Arabia"@,
    {
        String::from_str("Saudi Arabia")
    }
}

#[derive(Debug, Clone, Copy, PartialEq, Eq, Default, Structural)]
pub struct SBD;

impl Currency for SBD {
    fn ticker(&self) -> (r: String)
        ensures
            r@ == "SBD"@,
    {
        String::from_str("SBD")
    }

    fn name(&self) -> (r: String)
        ensures
            r@ == "Solomon Islands"@,
    {
        String::from_str("Solomon Islands")
    }
}

#[derive(Debug, Clone, Copy, PartialEq, Eq, Default, Structural)]
pub struct SCR;

impl Currency for SCR {
    fn ticker(&self) -> (r: String)
        ensures
            r@ == "SCR"@,
    {
        String::from_str("SCR")
    }

    fn name(&self) -> (r: String)
        ensures
            r@ == "Seychelles"@,
    {
        String::from_str("Seychelles")
    }
}

#[derive(Debug, Clone, Copy, PartialEq, Eq, Default, Structural)]
pub struct SDG;

impl Currency for SDG {
    fn ticker(&self) -> (r: String)
        ensures
            r@ == "SDG"@,
    {
        String::from_str("SDG")
    }

    fn name(&self) -> (r: String)
        ensures
            r@ == "Sudan (The)"@,
    {
        String::from_str("Sudan (The)")
    }
}

#[derive(Debug, Clone, Copy, PartialEq, Eq, Default, Structural)]
pub struct SEK;

impl Currency for SEK {
    fn ticker(&self) -> (r: String)
        ensures
            r@ == "SEK"@,
    {
        String::from_str("SEK")
    }

    fn name(&self) -> (r: String)
        ensures
            r@ == "Sweden"@,
    {
        String::from_str("Sweden")
    }
}

#[derive(Debug, Clone, Copy, PartialEq, Eq, Default, Structural)]
pub struct SGD;

impl Currency for SGD {
    fn ticker(&self) -> (r: String)
        ensures
            r@ == "SGD"@,
    {
        String::from_str("SGD")
    }

    fn name(&self) -> (r: String)
        ensures
            r@ == "Singapore"@,
    {
        String::from_str("Singapore")
    }
}

#[derive(Debug, Clone, Copy, PartialEq, Eq, Default, Structural)]
pub struct SHP;

impl Currency for SHP {
    fn ticker(&self) -> (r: String)
        ensures
            r@ == "SHP"@,
    {
        String::from_str("SHP")
    }

    fn name(&self) -> (r: String)
        ensures
            r@ == "Saint Helena, Ascension And Tristan Da Cunha"@,
    {
        String::from_str("Saint Helena, Ascension And Tristan Da Cunha")
    }
}

#[derive(Debug, Clone, Copy, PartialEq, Eq, Default, Structural)]
pub struct SLL;

impl Currency for SLL {
    fn ticker(&self) -> (r: String)
        ensures
            r@ == "SLL"@,
    {
        String::from_str("SLL")
    }

    fn name(&self) -> (r: String)
        ensures
            r@ == "Sierra Leone"@,
    {
        String::from_str("Sierra Leone")
    }
}

#[derive(Debug, Clone, Copy, PartialEq, Eq, Default, Structural)]
pub struct SOS;

impl Currency for SOS {
    fn ticker(&self) -> (r: String)
        ensures
            r@ == "SOS"@,
    {
        String::from_str("SOS")
    }

    fn name(&self) -> (r: String)
        ensures
            r@ == "Somalia"@,
    {
        String::from_str("Somalia")
    }
}

#[derive(Debug, Clone, Copy, PartialEq, Eq, Default, Structural)]
pub struct SRD;

impl Currency for SRD {
    fn ticker(&self) -> (r: String)
        ensures
            r@ == "SRD"@,
    {
        String::from_str("SRD")
    }

    fn name(&self) -> (r: String)
        ensures
            r@ == "Suriname"@,
    {
        String::from_str("Suriname")
    }
}

#[derive(Debug, Clone, Copy, PartialEq, Eq, Default, Structural)]
pub struct SSP;

impl Currency for SSP {
    fn ticker(&self) -> (r: String)
        ensures
            r@ == "SSP"@,
    {
        String::from_str("SSP")
    }

    fn name(&self) -> (r: String)
        ensures
            r@ == "South Sudan"@,
    {
        String::from_str("South Sudan")
    }
}

#[derive(Debug, Clone, Copy, PartialEq, Eq, Default, Structural)]
pub struct STN;

impl Currency for STN {
    fn ticker(&self) -> (r: String)
        ensures
            r@ == "STN"@,
    {
        String::from_str("STN")
    }

    fn name(&self) -> (r: String)
        ensures
            r@ == "Sao Tome And Principe"@,
    {
        String::from_str("Sao Tome And Principe")
    }
}

#[derive(Debug, Clone, Copy, PartialEq, Eq, Default, Structural)]
pub struct SVC;

impl Currency for SVC {
    fn ticker(&self) -> (r: String)
        ensures
            r@ == "SVC"@,
    {
        String::from_str("SVC")
    }

    fn name(&self) -> (r: String)
        ensures
            r@ == "El Salvador"@,
    {
        String::from_str("El Salvador")
    }
}

#[derive(Debug, Clone, Copy, PartialEq, Eq, Default, Structural)]
pub struct SYP;

impl Currency for SYP {
    fn ticker(&self) -> (r: String)
        ensures
            r@ == "SYP"@,
    {
        String::from_str("SYP")
    }

    fn name(&self) -> (r: String)
        ensures
            r@ == "Syrian Arab Republic"@,
    {
        String::from_str("Syrian Arab Republic")
    }
}

#[derive(Debug, Clone, Copy, PartialEq, Eq, Default, Structural)]
pub struct SZL;

impl Currency for SZL {
    fn ticker(&self) -> (r: String)
        ensures
            r@ == "SZL"@,
    {
        String::from_str("SZL")
    }

    fn name(&self) -> (r: String)
        ensures
            r@ == "Eswatini"@,
    {
        String::from_str("Eswatini")
    }
}

#[derive(Debug, Clone, Copy, PartialEq, Eq, Default, Structural)]
pub struct THB;

impl Currency for THB {
    fn ticker(&self) -> (r: String)
        ensures
            r@ == "THB"@,
    {
        String::from_str("THB")
    }

    fn name(&self) -> (r: String)
        ensures
            r@ == "Thailand"@,
    {
        String::from_str("Thailand")
    }
}

#[derive(Debug, Clone, Copy, PartialEq, Eq, Default, Structural)]
pub struct TJS;

impl Currency for TJS {
    fn ticker(&self) -> (r: String)
        ensures
            r@ == "TJS"@,
    {
        String::from_str("TJS")
    }

    fn name(&self) -> (r: String)
        ensures
            r@ == "Tajikistan"@,
    {
        String::from_str("Tajikistan")
    }
}

#[derive(Debug, Clone, Copy, PartialEq, Eq, Default, Structural)]
pub struct TMT;

impl Currency for TMT {
    fn ticker(&self) -> (r: String)
        ensures
            r@ == "TMT"@,
    {
        String::from_str("TMT")
    }

    fn name(&self) -> (r: String)
        ensures
            r@ == "Turkmenistan"@,
    {
        String::from_str("Turkmenistan")
    }
}

#[derive(Debug, Clone, Copy, PartialEq, Eq, Default, Structural)]
pub struct TND;

impl Currency for TND {
    fn ticker(&self) -> (r: String)
        ensures
            r@ == "TND"@,
    {
        String::from_str("TND")
    }

    fn name(&self) -> (r: String)
        ensures
            r@ == "Tunisia"@,
    {
        String::from_str("Tunisia")
    }
}

#[derive(Debug, Clone, Copy, PartialEq, Eq, Default, Structural)]
pub struct TOP;

impl Currency for TOP {
    fn ticker(&self) -> (r: String)
        ensures
            r@ == "TOP"@,
    {
        String::from_str("TOP")
    }

    fn name(&self) -> (r: String)
        ensures
            r@ == "Tonga"@,
    {
        String::from_str("Tonga")
    }
}

#[derive(Debug, Clone, Copy, PartialEq, Eq, Default, Structural)]
pub struct TRY;

impl Currency for TRY {
    fn ticker(&self) -> (r: String)
        ensures
            r@ == "TRY"@,
    {
        String::from_str("TRY")
    }

    fn name(&self) -> (r: String)
        ensures
            r@ == "Turkey"@,
    {
        String::from_str("Turkey")
    }
}

#[derive(Debug, Clone, Copy, PartialEq, Eq, Default, Structural)]
pub struct TTD;

impl Currency for TTD {
    fn ticker(&self) -> (r: String)
        ensures
            r@ == "TTD"@,
    {
        String::from_str("TTD")
    }

    fn name(&self) -> (r: String)
        ensures
            r@ == "Trinidad And Tobago"@,
    {
        String::from_str("Trinidad And Tobago")
    }
}

#[derive(Debug, Clone, Copy, PartialEq, Eq, Default, Structural)]
pub struct TWD;

impl Currency for TWD {
    fn ticker(&self) -> (r: String)
        ensures
            r@ == "TWD"@,
    {
        String::from_str("TWD")
    }

    fn name(&self) -> (r: String)
        ensures
            r@ == "Taiwan (Province Of China)"@,
    {
        String::from_str("Taiwan (Province Of China)")
    }
}

#[derive(Debug, Clone, Copy, PartialEq, Eq, Default, Structural)]
pub struct TZS;

impl Currency for TZS {
    fn ticker(&self) -> (r: String)
        ensures
            r@ == "TZS"@,
    {
        String::from_str("TZS")
    }

    fn name(&self) -> (r: String)
        ensures
            r@ == "Tanzania, United Republic Of"@,
    {
        String::from_str("Tanzania, United Republic Of")
    }
}

#[derive(Debug, Clone, Copy, PartialEq, Eq, Default, Structural)]
pub struct UAH;

impl Currency for UAH {
    fn ticker(&self) -> (r: String)
        ensures
            r@ == "UAH"@,
    {
        String::from_str("UAH")
    }

    fn name(&self) -> (r: String)
        ensures
            r@ == "Ukraine"@,
    {
        String::from_str("Ukraine")
    }
}

#[derive(Debug, Clone, Copy, PartialEq, Eq, Default, Structural)]
pub struct UGX;

impl Currency for UGX {
    fn ticker(&self) -> (r: String)
        ensures
            r@ == "UGX"@,
    {
        String::from_str("UGX")
    }

    fn name(&self) -> (r: String)
        ensures
            r@ == "Uganda"@,
    {
        String::from_str("Uganda")
    }
}

#[derive(Debug, Clone, Copy, PartialEq, Eq, Default, Structural)]
pub struct USD;

impl Currency for USD {
    fn ticker(&self) -> (r: String)
        ensures
            r@ == "USD"@,
    {
        String::from_str("USD")
    }

    fn name(&self) -> (r: String)
        ensures
            r@ == "United States Of America (The)"@,
    {
        String::from_str("United States Of America (The)")
    }
}

#[derive(Debug, Clone, Copy, PartialEq, Eq, Default, Structural)]
pub struct UYI;

impl Currency for UYI {
    fn ticker(&self) -> (r: String)
        ensures
            r@ == "UYI"@,
    {
        String::from_str("UYI")
    }

    fn name(&self) -> (r: String)
        ensures
            r@ == "Uruguay"@,
    {
        String::from_str("Uruguay")
    }
}

#[derive(Debug, Clone, Copy, PartialEq, Eq, Default, Structural)]
pub struct UYU;

impl Currency for UYU {
    fn ticker(&self) -> (r: String)
        ensures
            r@ == "UYU"@,
    {
        String::from_str("UYU")
    }

    fn name(&self) -> (r: String)
        ensures
            r@ == "Uruguay"@,
    {
        String::from_str("Uruguay")
    }
}

#[derive(Debug, Clone, Copy, PartialEq, Eq, Default, Structural)]
pub struct UYW;

impl Currency for UYW {
    fn ticker(&self) -> (r: String)
        ensures
            r@ == "UYW"@,
    {
        String::from_str("UYW")
    }

    fn name(&self) -> (r: String)
        ensures
            r@ == "Uruguay"@,
    {
        String::from_str("Uruguay")
    }
}

#[derive(Debug, Clone, Copy, PartialEq, Eq, Default, Structural)]
pub struct UZS;

impl Currency for UZS {
    fn ticker(&self) -> (r: String)
        ensures
            r@ == "UZS"@,
    {
        String::from_str("UZS")
    }

    fn name(&self) -> (r: String)
        ensures
            r@ == "Uzbekistan"@,
    {
        String::from_str("Uzbekistan")
    }
}

#[derive(Debug, Clone, Copy, PartialEq, Eq, Default, Structural)]
pub struct VES;

impl Currency for VES {
    fn ticker(&self) -> (r: String)
        ensures
            r@ == "VES"@,
    {
        String::from_str("VES")
    }

    fn name(&self) -> (r: String)
        ensures
            r@ == "Venezuela (Bolivarian Republic Of)"@,
    {
        String::from_str("Venezuela (Bolivarian Republic Of)")
    }
}

#[derive(Debug, Clone, Copy, PartialEq, Eq, Default, Structural)]
pub struct VND;

impl Currency for VND {
    fn ticker(&self) -> (r: String)
        ensures
            r@ == "VND"@,
    {
        String::from_str("VND")
    }

    fn name(&self) -> (r: String)
        ensures
            r@ == "Viet Nam"@,
    {
        String::from_str("Viet Nam")
    }
}

#[derive(Debug, Clone, Copy, PartialEq, Eq, Default, Structural)]
pub struct VUV;

impl Currency for VUV {
    fn ticker(&self) -> (r: String)
        ensures
            r@ == "VUV"@,
    {
        String::from_str("VUV")
    }

    fn name(&self) -> (r: String)
        ensures
            r@ == "Vanuatu"@,
    {
        String::from_str("Vanuatu")
    }
}

#[derive(Debug, Clone, Copy, PartialEq, Eq, Default, Structural)]
pub struct WST;

impl Currency for WST {
    fn ticker(&self) -> (r: String)
        ensures
            r@ == "WST"@,
    {
        String::from_str("WST")
    }

    fn name(&self) -> (r: String)
        ensures
            r@ == "Samoa"@,
    {
        String::from_str("Samoa")
    }
}

#[derive(Debug, Clone, Copy, PartialEq, Eq, Default, Structural)]
pub struct XAF;

impl Currency for XAF {
    fn ticker(&self) -> (r: String)
        ensures
            r@ == "XAF"@,
    {
        String::from_str("XAF")
    }

    fn name(&self) -> (r: String)
        ensures
            r@ == "Central African Republic (The)"@,
    {
        String::from_str("Central African Republic (The)")
    }
}

#[derive(Debug, Clone, Copy, PartialEq, Eq, Default, Structural)]
pub struct XAG;

impl Currency for XAG {
    fn ticker(&self) -> (r: String)
        ensures
            r@ == "XAG"@,
    {
        String::from_str("XAG")
    }

    fn name(&self) -> (r: String)
        ensures
            r@ == "Zz11_Silver"@,
    {
        String::from_str("Zz11_Silver")
    }
}

#[derive(Debug, Clone, Copy, PartialEq, Eq, Default, Structural)]
pub struct XAU;

impl Currency for XAU {
    fn ticker(&self) -> (r: String)
        ensures
            r@ == "XAU"@,
    {
        String::from_str("XAU")
    }

    fn name(&self) -> (r: String)
        ensures
            r@ == "Zz08_Gold"@,
    {
        String::from_str("Zz08_Gold")
    }
}

#[derive(Debug, Clone, Copy, PartialEq, Eq, Default, Structural)]
pub struct XBA;

impl Currency for XBA {
    fn ticker(&self) -> (r: String)
        ensures
            r@ == "XBA"@,
    {
        String::from_str("XBA")
    }

    fn name(&self) -> (r: String)
        ensures
            r@ == "Zz01_Bond Markets Unit European_Eurco"@,
    {
        String::from_str("Zz01_Bond Markets Unit European_Eurco")
    }
}

#[derive(Debug, Clone, Copy, PartialEq, Eq, Default, Structural)]
pub struct XBB;

impl Currency for XBB {
    fn ticker(&self) -> (r: String)
        ensures
            r@ == "XBB"@,
    {
        String::from_str("XBB")
    }

    fn name(&self) -> (r: String)
        ensures
            r@ == "Zz02_Bond Markets Unit European_Emu-6"@,
    {
        String::from_str("Zz02_Bond Markets Unit European_Emu-6")
    }
}

#[derive(Debug, Clone, Copy, PartialEq, Eq, Default, Structural)]
pub struct XBC;

impl Currency for XBC {
    fn ticker(&self) -> (r: String)
        ensures
            r@ == "XBC"@,
    {
        String::from_str("XBC")
    }

    fn name(&self) -> (r: String)
        ensures
            r@ == "Zz03_Bond Markets Unit European_Eua-9"@,
    {
        String::from_str("Zz03_Bond Markets Unit European_Eua-9")
    }
}

#[derive(Debug, Clone, Copy, PartialEq, Eq, Default, Structural)]
pub struct XBD;

impl Currency for XBD {
    fn ticker(&self) -> (r: String)
        ensures
            r@ == "XBD"@,
    {
        String::from_str("XBD")
    }

    fn name(&self) -> (r: String)
        ensures
            r@ == "Zz04_Bond Markets Unit European_Eua-17"@,
    {
        String::from_str("Zz04_Bond Markets Unit European_Eua-17")
    }
}

#[derive(Debug, Clone, Copy, PartialEq, Eq, Default, Structural)]
pub struct XCD;

impl Currency for XCD {
    fn ticker(&self) -> (r: String)
        ensures
            r@ == "XCD"@,
    {
        String::from_str("XCD")
    }

    fn name(&self) -> (r: String)
        ensures
            r@ == "Anguilla"@,
    {
        String::from_str("Anguilla")
    }
}

#[derive(Debug, Clone, Copy, PartialEq, Eq, Default, Structural)]
pub struct XDR;

impl Currency for XDR {
    fn ticker(&self) -> (r: String)
        ensures
            r@ == "XDR"@,
    {
        String::from_str("XDR")
    }

    fn name(&self) -> (r: String)
        ensures
            r@ == "International Monetary Fund (Imf)"@,
    {
        String::from_str("International Monetary Fund (Imf)")
    }
}

#[derive(Debug, Clone, Copy, PartialEq, Eq, Default, Structural)]
pub struct XOF;

impl Currency for XOF {
    fn ticker(&self) -> (r: String)
        ensures
            r@ == "XOF"@,
    {
        String::from_str("XOF")
    }

    fn name(&self) -> (r: String)
        ensures
            r@ == "Senegal"@,
    {
        String::from_str("Senegal")
    }
}

#[derive(Debug, Clone, Copy, PartialEq, Eq, Default, Structural)]
pub struct XPD;

impl Currency for XPD {
    fn ticker(&self) -> (r: String)
        ensures
            r@ == "XPD"@,
    {
        String::from_str("XPD")
    }

    fn name(&self) -> (r: String)
        ensures
            r@ == "Zz09_Palladium"@,
    {
        String::from_str("Zz09_Palladium")
    }
}

#[derive(Debug, Clone, Copy, PartialEq, Eq, Default, Structural)]
pub struct XPF;

impl Currency for XPF {
    fn ticker(&self) -> (r: String)
        ensures
            r@ == "XPF"@,
    {
        String::from_str("XPF")
    }

    fn name(&self) -> (r: String)
        ensures
            r@ == "French Polynesia"@,
    {
        String::from_str("French Polynesia")
    }
}

#[derive(Debug, Clone, Copy, PartialEq, Eq, Default, Structural)]
pub struct XPT;

impl Currency for XPT {
    fn ticker(&self) -> (r: String)
        ensures
            r@ == "XPT"@,
    {
        String::from_str("XPT")
    }

    fn name(&self) -> (r: String)
        ensures
            r@ == "Zz10_Platinum"@,
    {
        String::from_str("Zz10_Platinum")
    }
}

#[derive(Debug, Clone, Copy, PartialEq, Eq, Default, Structural)]
pub struct XSU;

impl Currency for XSU {
    fn ticker(&self) -> (r: String)
        ensures
            r@ == "XSU"@,
    {
        String::from_str("XSU")
    }

    fn name(&self) -> (r: String)
        ensures
            r@ == "Sistema Unitario De Compensacion Regional De Pagos"@,
    {
        String::from_str("Sistema Unitario De Compensacion Regional De Pagos")
    }
}

#[derive(Debug, Clone, Copy, PartialEq, Eq, Default, Structural)]
pub struct XTS;

impl Currency for XTS {
    fn ticker(&self) -> (r: String)
        ensures
            r@ == "XTS"@,
    {
        String::from_str("XTS")
    }

    fn name(&self) -> (r: String)
        ensures
            r@ == "Zz06_Testing_Code"@,
    {
        String::from_str("Zz06_Testing_Code")
    }
}

#[derive(Debug, Clone, Copy, PartialEq, Eq, Default, Structural)]
pub struct XUA;

impl Currency for XUA {
    fn ticker(&self) -> (r: String)
        ensures
            r@ == "XUA"@,
    {
        String::from_str("XUA")
    }

    fn name(&self) -> (r: String)
        ensures
            r@ == "Member Countries Of The African Development Bank Group"@,
    {
        String::from_str("Member Countries Of The African Development Bank Group")
    }
}

#[derive(Debug, Clone, Copy, PartialEq, Eq, Default, Structural)]
pub struct XXX;

impl Currency for XXX {
    fn ticker(&self) -> (r: String)
        ensures
            r@ == "XXX"@,
    {
        String::from_str("XXX")
    }

    fn name(&self) -> (r: String)
        ensures
            r@ == "Zz07_No_Currency"@,
    {
        String::from_str("Zz07_No_Currency")
    }
}

#[derive(Debug, Clone, Copy, PartialEq, Eq, Default, Structural)]
pub struct YER;

impl Currency for YER {
    fn ticker(&self) -> (r: String)
        ensures
            r@ == "YER"@,
    {
        String::from_str("YER")
    }

    fn name(&self) -> (r: String)
        ensures
            r@ == "Yemen"@,
    {
        String::from_str("Yemen")
    }
}

#[derive(Debug, Clone, Copy, PartialEq, Eq, Default, Structural)]
pub struct ZAR;

impl Currency for ZAR {
    fn ticker(&self) -> (r: String)
        ensures
            r@ == "ZAR"@,
    {
        String::from_str("ZAR")
    }

    fn name(&self) -> (r: String)
        ensures
            r@ == "South Africa"@,
    {
        String::from_str("South Africa")
    }
}

#[derive(Debug, Clone, Copy, PartialEq, Eq, Default, Structural)]
pub struct ZMW;

impl Currency for ZMW {
    fn ticker(&self) -> (r: String)
        ensures
            r@ == "ZMW"@,
    {
        String::from_str("ZMW")
    }

    fn name(&self) -> (r: String)
        ensures
            r@ == "Zambia"@,
    {
        String::from_str("Zambia")
    }
}

#[derive(Debug, Clone, Copy, PartialEq, Eq, Default, Structural)]
pub struct ZWL;

impl Currency for ZWL {
    fn ticker(&self) -> (r: String)
        ensures
            r@ == "ZWL"@,
    {
        String::from_str("ZWL")
    }

    fn name(&self) -> (r: String)
        ensures
            r@ == "Zimbabwe"@,
    {
        String::from_str("Zimbabwe")
    }
}

} // verus!
