use libc::c_int;
use vstd::prelude::*;

verus! {

/// Command language the printer is driven in.
#[allow(non_camel_case_types, clippy::upper_case_acronyms)]
#[derive(Clone, Copy, Debug, PartialEq, Eq, Structural)]
pub enum PrintLanguage {
    DEFAULT,
    BPLA,
    BPLC,
    BPLZ,
}

impl PrintLanguage {
    /// The SDK's integer code for this language.
    pub open spec fn spec_code(self) -> int {
        match self {
            PrintLanguage::DEFAULT => 0,
            PrintLanguage::BPLZ => 2,
            PrintLanguage::BPLC => 4,
            PrintLanguage::BPLA => 6,
        }
    }

    pub fn code(&self) -> (r: c_int)
        ensures
            r == self.spec_code(),
    {
        match self {
            PrintLanguage::DEFAULT => 0,
            PrintLanguage::BPLZ => 2,
            PrintLanguage::BPLC => 4,
            PrintLanguage::BPLA => 6,
        }
    }
}


/// Transport over which the printer is reached.
#[allow(non_camel_case_types, clippy::upper_case_acronyms)]
#[derive(Clone, Copy, Debug, PartialEq, Eq, Structural)]
pub enum PortType {
    COM,
    USB,
    NET,
    WIFI,
    BLE,
    BLUETOOTH,
    FILE,
}

impl PortType {
    /// The SDK's integer code for this value.
    pub open spec fn spec_code(self) -> int {
        match self {
            PortType::COM => 1,
            PortType::USB => 3,
            PortType::NET => 4,
            PortType::WIFI => 5,
            PortType::BLE => 6,
            PortType::BLUETOOTH => 7,
            PortType::FILE => 8,
        }
    }

    pub fn code(&self) -> (r: c_int)
        ensures
            r == self.spec_code(),
    {
        match self {
            PortType::COM => 1,
            PortType::USB => 3,
            PortType::NET => 4,
            PortType::WIFI => 5,
            PortType::BLE => 6,
            PortType::BLUETOOTH => 7,
            PortType::FILE => 8,
        }
    }
}

/// Symbology of a one-dimensional barcode.
#[allow(non_camel_case_types, clippy::upper_case_acronyms)]
#[derive(Clone, Copy, Debug, PartialEq, Eq, Structural)]
pub enum BarcodeType {
    CODE128,
    CODE39,
    CODE93,
    EAN8,
    EAN13,
    CODEBAR,
    ITF25,
    UPCA,
    UPCE,
}

impl BarcodeType {
    /// The SDK's integer code for this value.
    pub open spec fn spec_code(self) -> int {
        match self {
            BarcodeType::CODE128 => 1,
            BarcodeType::CODE39 => 2,
            BarcodeType::CODE93 => 3,
            BarcodeType::EAN8 => 4,
            BarcodeType::EAN13 => 5,
            BarcodeType::CODEBAR => 6,
            BarcodeType::ITF25 => 7,
            BarcodeType::UPCA => 8,
            BarcodeType::UPCE => 9,
        }
    }

    pub fn code(&self) -> (r: c_int)
        ensures
            r == self.spec_code(),
    {
        match self {
            BarcodeType::CODE128 => 1,
            BarcodeType::CODE39 => 2,
            BarcodeType::CODE93 => 3,
            BarcodeType::EAN8 => 4,
            BarcodeType::EAN13 => 5,
            BarcodeType::CODEBAR => 6,
            BarcodeType::ITF25 => 7,
            BarcodeType::UPCA => 8,
            BarcodeType::UPCE => 9,
        }
    }
}

/// How the printer finds the start of the next label.
#[derive(Clone, Copy, Debug, PartialEq, Eq, Structural)]
pub enum PaperMode {
    Gaps,
    Continuous,
    Mark,
}

impl PaperMode {
    /// The SDK's integer code for this value.
    pub open spec fn spec_code(self) -> int {
        match self {
            PaperMode::Gaps => 1,
            PaperMode::Continuous => 2,
            PaperMode::Mark => 3,
        }
    }

    pub fn code(&self) -> (r: c_int)
        ensures
            r == self.spec_code(),
    {
        match self {
            PaperMode::Gaps => 1,
            PaperMode::Continuous => 2,
            PaperMode::Mark => 3,
        }
    }
}

/// Thermal technique the print head uses.
#[derive(Clone, Copy, Debug, PartialEq, Eq, Structural)]
pub enum PrintMethod {
    Thermal,
    Transfer,
}

impl PrintMethod {
    /// The SDK's integer code for this value.
    pub open spec fn spec_code(self) -> int {
        match self {
            PrintMethod::Thermal => 1,
            PrintMethod::Transfer => 2,
        }
    }

    pub fn code(&self) -> (r: c_int)
        ensures
            r == self.spec_code(),
    {
        match self {
            PrintMethod::Thermal => 1,
            PrintMethod::Transfer => 2,
        }
    }
}

/// Distinct print languages are sent as distinct codes.
pub proof fn lemma_print_language_codes_distinct(a: PrintLanguage, b: PrintLanguage)
    ensures
        a.spec_code() == b.spec_code() <==> a == b,
{
}

/// Distinct port types are sent as distinct codes.
pub proof fn lemma_port_type_codes_distinct(a: PortType, b: PortType)
    ensures
        a.spec_code() == b.spec_code() <==> a == b,
{
}

/// Distinct barcode symbologies are sent as distinct codes.
pub proof fn lemma_barcode_type_codes_distinct(a: BarcodeType, b: BarcodeType)
    ensures
        a.spec_code() == b.spec_code() <==> a == b,
{
}

/// Distinct paper modes are sent as distinct codes.
pub proof fn lemma_paper_mode_codes_distinct(a: PaperMode, b: PaperMode)
    ensures
        a.spec_code() == b.spec_code() <==> a == b,
{
}

/// Distinct print methods are sent as distinct codes.
pub proof fn lemma_print_method_codes_distinct(a: PrintMethod, b: PrintMethod)
    ensures
        a.spec_code() == b.spec_code() <==> a == b,
{
}

} // verus!
