//! The library's error type.
use vstd::prelude::*;
use crate::text::{push_decimal, push_signed_decimal, decimal, signed_decimal};

verus! {

/// Errors of the binding.
#[derive(Debug)]
pub enum Error {
    /// The shared library could not be loaded, or a symbol of it not resolved.
    SharedLibraryError(String),
    /// An OpenH264 function returned a non-zero status code.
    Openh264Error { code: i32, function: &'static str },
    /// A method of an OpenH264 virtual table was absent.
    UnavailableMethod(&'static str),
    /// The OpenH264 version loaded at run time differs from the one the binding was built for.
    VersionMismatch {
        /// The version the binding was built for.
        build_version: &'static str,
        /// The version of the loaded library.
        runtime_version: String,
    },
    /// A decoded picture was not I420.
    UnsupportedFormat { format: u32 },
    /// The YUV planes handed to the encoder do not have the picture's sizes.
    InvalidYuvSize,
    /// A parameter is out of the accepted range.
    InvalidParameter(String),
}

/// The text that `Error::message` renders for `e`.
pub open spec fn error_text(e: Error) -> Seq<char> {
    match e {
        Error::SharedLibraryError(msg) => msg@,
        Error::Openh264Error { code, function } =>
            function@ + "() failed: code="@ + signed_decimal(code as int),
        Error::UnavailableMethod(name) => "unavailable method: name="@ + name@,
        Error::VersionMismatch { build_version, runtime_version } =>
            "OpenH264 version mismatch: build="@ + build_version@ + ", runtime="@ + runtime_version@,
        Error::UnsupportedFormat { format } =>
            "unsupported video format (not I420): format="@ + decimal(format as nat),
        Error::InvalidYuvSize => "invalid input YUV size"@,
        Error::InvalidParameter(msg) => "invalid parameter: "@ + msg@,
    }
}

/// `e` is an `InvalidParameter` error whose message is `msg`.
pub open spec fn invalid_with(e: Error, msg: Seq<char>) -> bool {
    e == Error::InvalidParameter(e->InvalidParameter_0) && e->InvalidParameter_0@ == msg
}

impl Error {
    /// Turns the status code of the OpenH264 function `function` into a result:
    /// `Ok` for 0, `Openh264Error` for any other code.
    pub fn check(code: i32, function: &'static str) -> (r: Result<(), Error>)
        ensures
            code == 0 <==> r is Ok,
            r matches Err(e) ==> e == (Error::Openh264Error { code, function }),
    {
        if code == 0 {
            Ok(())
        } else {
            Err(Error::Openh264Error { code, function })
        }
    }

    /// The outcome of a `WelsCreate*` call named `function` that returned `code` and did or
    /// did not write a handle: `Ok` only for code 0 with a handle; the code's
    /// `Openh264Error` for another code; an `Openh264Error` with code -1 for a missing handle.
    pub fn check_created(code: i32, handle_present: bool, function: &'static str) -> (r: Result<(), Error>)
        ensures
            r is Ok <==> code == 0 && handle_present,
            code != 0 ==> r == Err::<(), Error>(Error::Openh264Error { code, function }),
            code == 0 && !handle_present ==> r == Err::<(), Error>(Error::Openh264Error { code: -1i32, function }),
    {
        if code != 0 {
            return Err(Error::Openh264Error { code, function });
        }
        if !handle_present {
            return Err(Error::Openh264Error { code: -1, function });
        }
        Ok(())
    }

    /// An `InvalidParameter` error with the message `msg`.
    pub fn invalid_parameter(msg: &str) -> (e: Error)
        ensures
            e == Error::InvalidParameter(e->InvalidParameter_0),
            e->InvalidParameter_0@ == msg@,
    {
        Error::InvalidParameter(String::from_str(msg))
    }

    /// The human-readable description of the error.
    pub fn message(&self) -> (text: String)
        ensures
            text@ == error_text(*self),
    {
        let mut s = String::new();
        match self {
            Error::SharedLibraryError(msg) => {
                s.append(msg.as_str());
            },
            Error::Openh264Error { code, function } => {
                s.append(function);
                s.append("() failed: code=");
                push_signed_decimal(&mut s, *code as i64);
            },
            Error::UnavailableMethod(name) => {
                s.append("unavailable method: name=");
                s.append(name);
            },
            Error::VersionMismatch { build_version, runtime_version } => {
                s.append("OpenH264 version mismatch: build=");
                s.append(build_version);
                s.append(", runtime=");
                s.append(runtime_version.as_str());
            },
            Error::UnsupportedFormat { format } => {
                s.append("unsupported video format (not I420): format=");
                push_decimal(&mut s, *format as u64);
            },
            Error::InvalidYuvSize => {
                s.append("invalid input YUV size");
            },
            Error::InvalidParameter(msg) => {
                s.append("invalid parameter: ");
                s.append(msg.as_str());
            },
        }
        s
    }
}

} // verus!
