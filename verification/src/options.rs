//! Stream modes, engine options and diagnostic severities.

use vstd::prelude::*;

verus! {

/// How the primary stream is framed.
#[derive(Debug, Copy, Clone, PartialEq, Eq, Hash, Structural)]
pub enum OpenFlag {
    /// A standalone stream that starts with its own file header.
    File,
    /// A stream without file header, as found inside a container.
    Embedded,
}

/// Option word handed to the engine when a context is created.
#[allow(non_camel_case_types)]
#[derive(Debug, Copy, Clone, PartialEq, Eq, Hash, Structural)]
pub enum Jbig2Options {
    JBIG2_OPTIONS_DEFAULT,
    JBIG2_OPTIONS_EMBEDDED,
}

/// Severity the engine attaches to a diagnostic message.
#[allow(non_camel_case_types)]
#[derive(Debug, Copy, Clone, PartialEq, Eq, Hash, Structural)]
pub enum Jbig2Severity {
    JBIG2_SEVERITY_DEBUG,
    JBIG2_SEVERITY_INFO,
    JBIG2_SEVERITY_WARNING,
    JBIG2_SEVERITY_FATAL,
}

impl Default for OpenFlag {
    fn default() -> (flag: Self)
        ensures
            flag == OpenFlag::File,
    {
        OpenFlag::File
    }
}

impl OpenFlag {
    /// The engine option that selects this stream mode.
    pub open spec fn spec_options(self) -> Jbig2Options {
        match self {
            OpenFlag::File => Jbig2Options::JBIG2_OPTIONS_DEFAULT,
            OpenFlag::Embedded => Jbig2Options::JBIG2_OPTIONS_EMBEDDED,
        }
    }

    /// The engine option that selects this stream mode.
    #[verifier::when_used_as_spec(spec_options)]
    pub fn options(self) -> (options: Jbig2Options)
        ensures
            options == self.spec_options(),
    {
        match self {
            OpenFlag::File => Jbig2Options::JBIG2_OPTIONS_DEFAULT,
            OpenFlag::Embedded => Jbig2Options::JBIG2_OPTIONS_EMBEDDED,
        }
    }
}

impl Jbig2Options {
    /// The numeric value the engine's interface assigns to the option.
    pub open spec fn spec_code(self) -> u32 {
        match self {
            Jbig2Options::JBIG2_OPTIONS_DEFAULT => 0,
            Jbig2Options::JBIG2_OPTIONS_EMBEDDED => 1,
        }
    }

    /// The numeric value the engine's interface assigns to the option.
    #[verifier::when_used_as_spec(spec_code)]
    pub fn code(self) -> (code: u32)
        ensures
            code == self.spec_code(),
    {
        match self {
            Jbig2Options::JBIG2_OPTIONS_DEFAULT => 0,
            Jbig2Options::JBIG2_OPTIONS_EMBEDDED => 1,
        }
    }
}

impl Jbig2Severity {
    /// The numeric value the engine's interface assigns to the severity.
    pub open spec fn spec_code(self) -> u32 {
        match self {
            Jbig2Severity::JBIG2_SEVERITY_DEBUG => 0,
            Jbig2Severity::JBIG2_SEVERITY_INFO => 1,
            Jbig2Severity::JBIG2_SEVERITY_WARNING => 2,
            Jbig2Severity::JBIG2_SEVERITY_FATAL => 3,
        }
    }

    /// The numeric value the engine's interface assigns to the severity.
    #[verifier::when_used_as_spec(spec_code)]
    pub fn code(self) -> (code: u32)
        ensures
            code == self.spec_code(),
    {
        match self {
            Jbig2Severity::JBIG2_SEVERITY_DEBUG => 0,
            Jbig2Severity::JBIG2_SEVERITY_INFO => 1,
            Jbig2Severity::JBIG2_SEVERITY_WARNING => 2,
            Jbig2Severity::JBIG2_SEVERITY_FATAL => 3,
        }
    }

    /// The severity with the given numeric value, if there is one.
    pub fn from_code(code: u32) -> (severity: Option<Jbig2Severity>)
        ensures
            code <= 3 <==> severity is Some,
            severity is Some ==> severity->Some_0.spec_code() == code,
    {
        match code {
            0 => Some(Jbig2Severity::JBIG2_SEVERITY_DEBUG),
            1 => Some(Jbig2Severity::JBIG2_SEVERITY_INFO),
            2 => Some(Jbig2Severity::JBIG2_SEVERITY_WARNING),
            3 => Some(Jbig2Severity::JBIG2_SEVERITY_FATAL),
            _ => None,
        }
    }
}

} // verus!
