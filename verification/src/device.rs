//! Devices under test: their names, their short codes, and a submitted test.

use vstd::prelude::*;
use crate::text::same_text;

verus! {

/// The short code of a device, used in firmware paths and file names.
#[derive(Clone, Copy, Debug, PartialEq, Eq, Structural)]
pub enum DeviceCode {
    /// Brake Signal Transmitter.
    Bst,
    /// Continuous Wear Sensor.
    Cws,
    /// Pressure Sensor.
    Prs,
    /// Electronic Stability Control Module.
    Escm,
    /// Stands for every name that is not a known device.
    Unknown,
}

/// The code that a device name stands for: an exact match on the four known
/// names, `Unknown` for everything else.
pub open spec fn resolve_device_code(name: Seq<char>) -> DeviceCode {
    if name == "Brake Signal Transmitter"@ {
        DeviceCode::Bst
    } else if name == "Continuous Wear Sensor"@ {
        DeviceCode::Cws
    } else if name == "Pressure Sensor"@ {
        DeviceCode::Prs
    } else if name == "Electronic Stability Control Module"@ {
        DeviceCode::Escm
    } else {
        DeviceCode::Unknown
    }
}

impl DeviceCode {
    /// The code as it is written in paths and file names.
    pub open spec fn spec_str(self) -> Seq<char> {
        match self {
            DeviceCode::Bst => "BST"@,
            DeviceCode::Cws => "CWS"@,
            DeviceCode::Prs => "PrS"@,
            DeviceCode::Escm => "ESCM"@,
            DeviceCode::Unknown => "ERR"@,
        }
    }

    /// The full name of the device; `Unknown` has none.
    pub open spec fn spec_name(self) -> Option<Seq<char>> {
        match self {
            DeviceCode::Bst => Some("Brake Signal Transmitter"@),
            DeviceCode::Cws => Some("Continuous Wear Sensor"@),
            DeviceCode::Prs => Some("Pressure Sensor"@),
            DeviceCode::Escm => Some("Electronic Stability Control Module"@),
            DeviceCode::Unknown => None,
        }
    }

    /// The code as it is written in paths and file names.
    pub fn as_str(&self) -> (s: &'static str)
        ensures
            s@ == self.spec_str(),
    {
        match self {
            DeviceCode::Bst => "BST",
            DeviceCode::Cws => "CWS",
            DeviceCode::Prs => "PrS",
            DeviceCode::Escm => "ESCM",
            DeviceCode::Unknown => "ERR",
        }
    }

    /// The code that a device name stands for.
    pub fn resolve(name: &str) -> (code: DeviceCode)
        ensures
            code == resolve_device_code(name@),
    {
        if same_text(name, "Brake Signal Transmitter") {
            DeviceCode::Bst
        } else if same_text(name, "Continuous Wear Sensor") {
            DeviceCode::Cws
        } else if same_text(name, "Pressure Sensor") {
            DeviceCode::Prs
        } else if same_text(name, "Electronic Stability Control Module") {
            DeviceCode::Escm
        } else {
            DeviceCode::Unknown
        }
    }
}

/// What a submitted test holds.
pub struct Submission {
    /// The device's name, as the client wrote it.
    pub device: Seq<char>,
    /// The feature flag; what it switches depends on the device.
    pub check: bool,
}

/// A submitted test: the device to exercise and its feature flag.
#[derive(Debug)]
pub struct TestData {
    device: String,
    check: bool,
}

impl View for TestData {
    type V = Submission;

    closed spec fn view(&self) -> Submission {
        Submission { device: self.device@, check: self.check }
    }
}

impl Clone for TestData {
    fn clone(&self) -> (copy: Self)
        ensures
            copy == *self,
    {
        TestData { device: self.device.clone(), check: self.check }
    }
}

impl TestData {
    /// A test of the device of that name.
    pub fn new(device: String, check: bool) -> (data: TestData)
        ensures
            data@ == (Submission { device: device@, check }),
    {
        TestData { device, check }
    }

    /// The device's name, as the client wrote it.
    pub fn device(&self) -> (name: &str)
        ensures
            name@ == self@.device,
    {
        self.device.as_str()
    }

    /// The feature flag.
    pub fn check(&self) -> (flag: bool)
        ensures
            flag == self@.check,
    {
        self.check
    }

    /// The code of the device that the test names.
    pub fn device_code(&self) -> (code: DeviceCode)
        ensures
            code == resolve_device_code(self@.device),
    {
        DeviceCode::resolve(self.device.as_str())
    }

    /// The code of the device that the test names, as text: `ERR` where the
    /// name is that of no known device.
    pub fn abbrv_device(&self) -> (abbrv: &'static str)
        ensures
            abbrv@ == resolve_device_code(self@.device).spec_str(),
    {
        self.device_code().as_str()
    }
}

/// Every known device's name resolves to that device's code, and a name
/// resolves to `Unknown` exactly when it is the name of no known device.
pub proof fn lemma_resolve_is_exact_lookup(name: Seq<char>)
    ensures
        forall|code: DeviceCode|
            code.spec_name() == Some(name) ==> resolve_device_code(name) == code,
        resolve_device_code(name) is Unknown <==> forall|code: DeviceCode|
            code.spec_name() != Some(name),
        !(resolve_device_code(name) is Unknown) ==> resolve_device_code(name).spec_name()
            == Some(name),
{
    lemma_names_differ();
}

/// The four device names are pairwise different.
pub proof fn lemma_names_differ()
    ensures
        forall|a: DeviceCode, b: DeviceCode|
            a.spec_name() is Some && a.spec_name() == b.spec_name() ==> a == b,
{
    reveal_strlit("Brake Signal Transmitter");
    reveal_strlit("Continuous Wear Sensor");
    reveal_strlit("Pressure Sensor");
    reveal_strlit("Electronic Stability Control Module");
    assert("Brake Signal Transmitter"@.len() == 24);
    assert("Continuous Wear Sensor"@.len() == 22);
    assert("Pressure Sensor"@.len() == 15);
    assert("Electronic Stability Control Module"@.len() == 35);
}

/// No two devices share a code.
pub proof fn lemma_codes_differ()
    ensures
        forall|a: DeviceCode, b: DeviceCode| a.spec_str() == b.spec_str() ==> a == b,
{
    reveal_strlit("BST");
    reveal_strlit("CWS");
    reveal_strlit("PrS");
    reveal_strlit("ESCM");
    reveal_strlit("ERR");
    assert("BST"@[0] == 'B');
    assert("CWS"@[0] == 'C');
    assert("PrS"@[0] == 'P');
    assert("ESCM"@.len() == 4);
    assert("ERR"@[0] == 'E');
    assert("ERR"@.len() == 3);
}

} // verus!
