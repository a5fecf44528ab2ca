//! The fields of a devcontainer description that this tool does not support,
//! and what it says when it meets one.

use vstd::prelude::*;
use vstd::string::*;

verus! {

/// A field of a devcontainer description that is not supported.
#[derive(Clone, Copy, Debug, PartialEq, Eq, Structural)]
pub enum Unsupported {
    Image,
    Dockerfile,
    Features,
    OverrideFeatureInstallOrder,
    Secrets,
    OtherPortsAttributes,
    Mounts,
}

impl Unsupported {
    /// The field's name as descriptions write it.
    pub open spec fn name(self) -> Seq<char> {
        match self {
            Unsupported::Image => "Image"@,
            Unsupported::Dockerfile => "Dockerfile"@,
            Unsupported::Features => "features"@,
            Unsupported::OverrideFeatureInstallOrder => "overrideFeatureInstallOrder"@,
            Unsupported::Secrets => "secrets"@,
            Unsupported::OtherPortsAttributes => "otherPortsAttributes"@,
            Unsupported::Mounts => "mounts"@,
        }
    }

    /// What is logged when the field is met and passed over.
    pub open spec fn warning(self) -> Seq<char> {
        "`"@ + self.name() + "` is not supported; ignoring"@
    }

    /// What is reported when the field is met and refused.
    pub open spec fn refusal(self) -> Seq<char> {
        "`"@ + self.name() + "` is not supported at this time"@
    }

    /// The field's name as descriptions write it.
    pub fn field(self) -> (name: &'static str)
        ensures
            name@ == self.name(),
    {
        match self {
            Unsupported::Image => "Image",
            Unsupported::Dockerfile => "Dockerfile",
            Unsupported::Features => "features",
            Unsupported::OverrideFeatureInstallOrder => "overrideFeatureInstallOrder",
            Unsupported::Secrets => "secrets",
            Unsupported::OtherPortsAttributes => "otherPortsAttributes",
            Unsupported::Mounts => "mounts",
        }
    }

    /// What is logged when the field is met and passed over.
    pub fn warn(self) -> (message: String)
        ensures
            message@ == self.warning(),
    {
        let mut message = String::from_str("`");
        message.append(self.field());
        message.append("` is not supported; ignoring");
        message
    }

    /// What is reported when the field is met and refused.
    pub fn error(self) -> (message: String)
        ensures
            message@ == self.refusal(),
    {
        let mut message = String::from_str("`");
        message.append(self.field());
        message.append("` is not supported at this time");
        message
    }
}

} // verus!
