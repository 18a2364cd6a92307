//! Start-up of the service: the names that it registers under, and the
//! check that comes before anything else. The directory of failure records
//! has to exist already. It is never created here, since a missing
//! directory means that the device was set up wrongly, and creating it would
//! hide that.

use vstd::prelude::*;
use vstd::string::StringExecFns;

verus! {

/// Where the failure records are kept.
pub const GK_DIR: &'static str = "/data/vendor/gatekeeper/nonsecure";

/// Instance name of the Gatekeeper service.
pub const GK_INSTANCE: &'static str = "default";

/// Instance name of the shared-secret service that Gatekeeper offers.
pub const SS_INSTANCE: &'static str = "gatekeeper";

/// Interface name of the Gatekeeper service.
pub const GK_SERVICE: &'static str = "android.hardware.gatekeeper.IGatekeeper";

/// Interface name of the shared-secret service.
pub const SECRET_SERVICE: &'static str = "android.hardware.security.sharedsecret.ISharedSecret";

/// Instance name of the KeyMint services.
pub const SERVICE_INSTANCE: &'static str = "default";

/// The name that a service is registered under: its interface, a slash, and
/// its instance.
pub open spec fn spec_service_name(interface: Seq<char>, instance: Seq<char>) -> Seq<char> {
    interface + "/"@ + instance
}

/// The name that the service `interface` is registered under as `instance`.
pub fn service_name(interface: &str, instance: &str) -> (name: String)
    ensures
        name@ == spec_service_name(interface@, instance@),
{
    let mut name = String::from_str(interface);
    name.append("/");
    name.append(instance);
    name
}

/// A directory of failure records that the start-up check has found to be
/// there. Only `check_records_dir` makes one.
pub struct RecordsDir {
    path: String,
}

impl RecordsDir {
    /// The path of the directory.
    pub closed spec fn spec_path(&self) -> Seq<char> {
        self.path@
    }

    /// The path of the directory.
    pub fn path(&self) -> (p: &str)
        ensures
            p@ == self.spec_path(),
    {
        self.path.as_str()
    }
}

/// Why the service did not start.
#[derive(Debug, PartialEq, Eq)]
pub enum StartupError {
    /// It could not be found out whether the directory exists.
    ProbeFailed { dir: String, cause: String },
    /// The directory does not exist.
    Missing { dir: String },
    /// What is at the path is not a directory.
    NotADirectory { dir: String },
    /// A service could not be registered.
    RegistrationFailed { service: String, cause: String },
}

impl StartupError {
    /// What `message` says.
    pub open spec fn spec_message(&self) -> Seq<char> {
        match self {
            StartupError::ProbeFailed { dir, cause } => "Failed to determine if \""@ + dir@
                + "\" exists: "@ + cause@,
            StartupError::Missing { dir } => "Required directory \""@ + dir@
                + "\" does not exist!"@,
            StartupError::NotADirectory { dir } => "Required directory \""@ + dir@
                + "\" is not a directory!"@,
            StartupError::RegistrationFailed { service, cause } => "Failed to register service "@
                + service@ + ": "@ + cause@,
        }
    }

    /// The failure in words, naming the directory or the service.
    pub fn message(&self) -> (m: String)
        ensures
            m@ == self.spec_message(),
    {
        match self {
            StartupError::ProbeFailed { dir, cause } => {
                let mut m = String::from_str("Failed to determine if \"");
                m.append(dir.as_str());
                m.append("\" exists: ");
                m.append(cause.as_str());
                m
            },
            StartupError::Missing { dir } => {
                let mut m = String::from_str("Required directory \"");
                m.append(dir.as_str());
                m.append("\" does not exist!");
                m
            },
            StartupError::NotADirectory { dir } => {
                let mut m = String::from_str("Required directory \"");
                m.append(dir.as_str());
                m.append("\" is not a directory!");
                m
            },
            StartupError::RegistrationFailed { service, cause } => {
                let mut m = String::from_str("Failed to register service ");
                m.append(service.as_str());
                m.append(": ");
                m.append(cause.as_str());
                m
            },
        }
    }
}

/// What the start-up check finds wrong, if anything: `probe` is what asking
/// the file system whether `dir` exists gave (the cause, where even that
/// failed), `is_dir` whether what is there is a directory.
pub open spec fn refusal(dir: String, probe: Result<bool, String>, is_dir: bool) -> Option<
    StartupError,
> {
    match probe {
        Err(cause) => Some(StartupError::ProbeFailed { dir, cause }),
        Ok(false) => Some(StartupError::Missing { dir }),
        Ok(true) => if is_dir {
            None
        } else {
            Some(StartupError::NotADirectory { dir })
        },
    }
}

/// The start-up check. It lets through only a directory that is there, and
/// otherwise names what is wrong; the service must then not start.
pub fn check_records_dir(dir: String, probe: Result<bool, String>, is_dir: bool) -> (r: Result<RecordsDir, StartupError>)
    ensures
        refusal(dir, probe, is_dir) matches Some(e) ==> r == Err::<RecordsDir, StartupError>(e),
        refusal(dir, probe, is_dir) is None ==> (r matches Ok(d) && d.spec_path() == dir@),
{
    match probe {
        Err(cause) => Err(StartupError::ProbeFailed { dir, cause }),
        Ok(false) => Err(StartupError::Missing { dir }),
        Ok(true) => if is_dir {
            Ok(RecordsDir { path: dir })
        } else {
            Err(StartupError::NotADirectory { dir })
        },
    }
}

} // verus!
