use vstd::prelude::*;

verus! {

/// The ways a compression or decompression request can fail.
///
/// Most kinds mirror a status code of libucl; `SrcTooLarge`, `DstTooLarge`
/// and `DstTooSmall` are raised by this crate before libucl is called.
#[derive(Debug, PartialEq, Eq, Clone, Copy, Structural)]
pub enum UclErrorKind {
    GenericError,
    InvalidArgument,
    OutOfMemory,
    NotCompressible,
    InputOverrun,
    OutputOverrun,
    LookbehindOverrun,
    EofNotFound,
    InputNotConsumed,
    OverlapOverrun,
    SrcTooLarge,
    DstTooLarge,
    DstTooSmall,
}

/// The error kind that a libucl status code stands for: each documented
/// code its own kind, any other code `GenericError`.
pub open spec fn kind_of_code(code: i32) -> UclErrorKind {
    if code == -2 {
        UclErrorKind::InvalidArgument
    } else if code == -3 {
        UclErrorKind::OutOfMemory
    } else if code == -101 {
        UclErrorKind::NotCompressible
    } else if code == -201 {
        UclErrorKind::InputOverrun
    } else if code == -202 {
        UclErrorKind::OutputOverrun
    } else if code == -203 {
        UclErrorKind::LookbehindOverrun
    } else if code == -204 {
        UclErrorKind::EofNotFound
    } else if code == -205 {
        UclErrorKind::InputNotConsumed
    } else if code == -206 {
        UclErrorKind::OverlapOverrun
    } else {
        UclErrorKind::GenericError
    }
}

/// Whether an error kind is one that this crate raises itself, from the
/// sizes of the buffers, rather than one that libucl reports.
pub open spec fn is_size_error(kind: UclErrorKind) -> bool {
    ||| kind == UclErrorKind::SrcTooLarge
    ||| kind == UclErrorKind::DstTooLarge
    ||| kind == UclErrorKind::DstTooSmall
}

/// The human-readable description of each error kind.
pub open spec fn kind_message(kind: UclErrorKind) -> Seq<char> {
    match kind {
        UclErrorKind::GenericError => "generic UCL error"@,
        UclErrorKind::InvalidArgument => "invalid argument"@,
        UclErrorKind::OutOfMemory => "out of memory"@,
        UclErrorKind::NotCompressible => "not compressible"@,
        UclErrorKind::InputOverrun => "input overrun"@,
        UclErrorKind::OutputOverrun => "output overrun"@,
        UclErrorKind::LookbehindOverrun => "look-behind overrun"@,
        UclErrorKind::EofNotFound => "EOF not found"@,
        UclErrorKind::InputNotConsumed => "input not consumed"@,
        UclErrorKind::OverlapOverrun => "overlap overrun"@,
        UclErrorKind::SrcTooLarge => "src buffer too large"@,
        UclErrorKind::DstTooLarge => "dst buffer too large"@,
        UclErrorKind::DstTooSmall => "dst buffer too small"@,
    }
}

impl UclErrorKind {
    /// Decodes a (non-zero) status code returned by libucl.
    pub fn from(code: i32) -> (kind: Self)
        ensures
            kind == kind_of_code(code),
            !is_size_error(kind),
    {
        match code {
            -2 => UclErrorKind::InvalidArgument,
            -3 => UclErrorKind::OutOfMemory,
            -101 => UclErrorKind::NotCompressible,
            -201 => UclErrorKind::InputOverrun,
            -202 => UclErrorKind::OutputOverrun,
            -203 => UclErrorKind::LookbehindOverrun,
            -204 => UclErrorKind::EofNotFound,
            -205 => UclErrorKind::InputNotConsumed,
            -206 => UclErrorKind::OverlapOverrun,
            _ => UclErrorKind::GenericError,
        }
    }

    /// The description of this error, as its `Display` text reads.
    pub fn message(&self) -> (text: &'static str)
        ensures
            text@ == kind_message(*self),
    {
        match self {
            UclErrorKind::GenericError => "generic UCL error",
            UclErrorKind::InvalidArgument => "invalid argument",
            UclErrorKind::OutOfMemory => "out of memory",
            UclErrorKind::NotCompressible => "not compressible",
            UclErrorKind::InputOverrun => "input overrun",
            UclErrorKind::OutputOverrun => "output overrun",
            UclErrorKind::LookbehindOverrun => "look-behind overrun",
            UclErrorKind::EofNotFound => "EOF not found",
            UclErrorKind::InputNotConsumed => "input not consumed",
            UclErrorKind::OverlapOverrun => "overlap overrun",
            UclErrorKind::SrcTooLarge => "src buffer too large",
            UclErrorKind::DstTooLarge => "dst buffer too large",
            UclErrorKind::DstTooSmall => "dst buffer too small",
        }
    }
}

} // verus!
