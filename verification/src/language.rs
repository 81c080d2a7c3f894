//! The languages that a submission may be written in.

use vstd::prelude::*;
use vstd::string::*;

verus! {

/// The fixed set of supported languages.
#[derive(Debug, Copy, Clone, PartialEq, Eq, Structural)]
pub enum Language {
    Python,
    Rust,
    Java,
    Bash,
    Sh,
}

impl Language {
    /// The lower-case name of the language.
    pub open spec fn name_spec(self) -> Seq<char> {
        match self {
            Language::Python => "python"@,
            Language::Rust => "rust"@,
            Language::Java => "java"@,
            Language::Bash => "bash"@,
            Language::Sh => "sh"@,
        }
    }

    /// The file name of the root filesystem image built for the language.
    pub open spec fn rootfs_name_spec(self) -> Seq<char> {
        "rootfs-"@ + self.name_spec() + ".ext4"@
    }

    /// The lower-case name of the language, as it is shown and as it appears
    /// in file names.
    pub fn name(self) -> (r: &'static str)
        ensures
            r@ == self.name_spec(),
    {
        match self {
            Language::Python => "python",
            Language::Rust => "rust",
            Language::Java => "java",
            Language::Bash => "bash",
            Language::Sh => "sh",
        }
    }

    /// The name as an owned text.
    pub fn to_text(self) -> (r: String)
        ensures
            r@ == self.name_spec(),
    {
        String::from_str(self.name())
    }

    /// The file name of the root filesystem image built for the language.
    pub fn rootfs_name(self) -> (r: String)
        ensures
            r@ == self.rootfs_name_spec(),
    {
        let mut s = String::from_str("rootfs-");
        s.append(self.name());
        s.append(".ext4");
        s
    }
}

} // verus!
