//! Configuration enumerations and how they are read from text.
use vstd::prelude::*;
use crate::error::ServiceAppError;
use crate::text::{is_prefix, lower_of, lowercase, same_text, starts_with, strip_prefix};

verus! {

/// Where stored objects live.
#[derive(Debug, PartialEq, Eq, Structural, Clone, Copy)]
pub enum ObjectSourceType {
    AwsS3,
    GcpGS,
    LocalFileSystem,
}

/// The source type a lowercase name denotes, if any.
pub open spec fn object_source_of(s: Seq<char>) -> Option<ObjectSourceType> {
    if s == "awss3"@ {
        Some(ObjectSourceType::AwsS3)
    } else if s == "gcpgs"@ {
        Some(ObjectSourceType::GcpGS)
    } else if s == "localfilesystem"@ {
        Some(ObjectSourceType::LocalFileSystem)
    } else {
        None
    }
}

impl ObjectSourceType {
    /// Reads a source type from its name, ignoring case; an unknown name is
    /// an `InvalidRequest`.
    pub fn try_from(value: &str) -> (r: Result<ObjectSourceType, ServiceAppError>)
        ensures
            match object_source_of(lower_of(value@)) {
                Some(t) => r == Ok::<ObjectSourceType, ServiceAppError>(t),
                None => r is Err && r->Err_0 is InvalidRequest,
            },
    {
        let lower = lowercase(value);
        Self::from_lowercase(lower.as_str())
    }

    /// Reads a source type from its lowercase name.
    pub fn from_lowercase(lower: &str) -> (r: Result<ObjectSourceType, ServiceAppError>)
        ensures
            match object_source_of(lower@) {
                Some(t) => r == Ok::<ObjectSourceType, ServiceAppError>(t),
                None => r is Err && r->Err_0 is InvalidRequest,
            },
    {
        if same_text(lower, "awss3") {
            Ok(ObjectSourceType::AwsS3)
        } else if same_text(lower, "gcpgs") {
            Ok(ObjectSourceType::GcpGS)
        } else if same_text(lower, "localfilesystem") {
            Ok(ObjectSourceType::LocalFileSystem)
        } else {
            Err(ServiceAppError::InvalidRequest("Cannot create ObjectSourceType".to_owned()))
        }
    }

    /// The name of the source type.
    pub fn to_string(&self) -> (r: String)
        ensures
            r@ == match self {
                ObjectSourceType::AwsS3 => "AwsS3"@,
                ObjectSourceType::GcpGS => "GcpGS"@,
                ObjectSourceType::LocalFileSystem => "LocalFileSystem"@,
            },
    {
        match self {
            ObjectSourceType::AwsS3 => "AwsS3".to_owned(),
            ObjectSourceType::GcpGS => "GcpGS".to_owned(),
            ObjectSourceType::LocalFileSystem => "LocalFileSystem".to_owned(),
        }
    }
}

/// How the frontend is served.
#[derive(Debug, Clone)]
pub enum FrontendMode {
    /// Pages served as static files from the folder at this path.
    Integrated(String),
    /// The frontend is served elsewhere.
    External,
}

/// Model of a frontend mode: the path of an integrated frontend, or `None`.
pub open spec fn frontend_mode_view(m: FrontendMode) -> Option<Seq<char>> {
    match m {
        FrontendMode::Integrated(p) => Some(p@),
        FrontendMode::External => None,
    }
}

impl FrontendMode {
    /// Reads a frontend mode, ignoring case: `external`, or
    /// `integrated:<path>`. Anything else is an `InvalidRequest`.
    pub fn try_from(value: &str) -> (r: Result<FrontendMode, ServiceAppError>)
        ensures
            ({
                let lower = lower_of(value@);
                if lower == "external"@ {
                    r matches Ok(FrontendMode::External)
                } else if is_prefix("integrated:"@, lower) {
                    r is Ok && frontend_mode_view(r->Ok_0) == Some(
                        lower.subrange("integrated:"@.len() as int, lower.len() as int),
                    )
                } else {
                    r is Err && r->Err_0 is InvalidRequest
                }
            }),
    {
        let lower = lowercase(value);
        Self::from_lowercase(lower.as_str())
    }

    /// Reads a frontend mode from its lowercase form.
    pub fn from_lowercase(lower: &str) -> (r: Result<FrontendMode, ServiceAppError>)
        ensures
            if lower@ == "external"@ {
                r matches Ok(FrontendMode::External)
            } else if is_prefix("integrated:"@, lower@) {
                r is Ok && frontend_mode_view(r->Ok_0) == Some(
                    lower@.subrange("integrated:"@.len() as int, lower@.len() as int),
                )
            } else {
                r is Err && r->Err_0 is InvalidRequest
            },
    {
        if same_text(lower, "external") {
            return Ok(FrontendMode::External);
        }
        if starts_with(lower, "integrated") {
            match strip_prefix(lower, "integrated:") {
                Some(path) => Ok(FrontendMode::Integrated(path)),
                None => Err(
                    ServiceAppError::InvalidRequest(
                        "integrated:path is the expected format".to_owned(),
                    ),
                ),
            }
        } else {
            proof {
                reveal_strlit("integrated");
                reveal_strlit("integrated:");
                if is_prefix("integrated:"@, lower@) {
                    assert(lower@.subrange(0, 10) =~= lower@.subrange(0, 11).subrange(0, 10));
                    assert("integrated"@ =~= "integrated:"@.subrange(0, 10));
                }
            }
            Err(ServiceAppError::InvalidRequest("Cannot create FrontendMode".to_owned()))
        }
    }
}

} // verus!
