//! Core logic of a CD ripping tool: filename sanitizing, release matching,
//! output layout planning, per-track extraction arithmetic, and drive
//! diagnostics draining.
//!
//! Disc access, the metadata transport, interactive prompts and the encoder
//! stay outside; this library takes their results as plain values and hands
//! back plans, names and buffers.

use vstd::prelude::*;

pub mod diag;
pub mod errors;
pub mod mb;
pub mod plan;
pub mod rip;
pub mod text;

use crate::text::PathSanitizer;

verus! {

/// The command line surface: one positional output directory, an optional
/// device path, and the flag that selects the strict filename policy.
pub struct Cli {
    pub disc_device: Option<String>,
    pub output_path: String,
    pub ntfs_filenames: bool,
}

impl Cli {
    /// The device to open: the explicit path, or the platform default.
    pub fn device(&self) -> (r: &str)
        ensures
            self.disc_device matches Some(d) ==> r@ == d@,
            self.disc_device is None ==> r@ == "/dev/cdrom"@,
    {
        match &self.disc_device {
            Some(d) => d.as_str(),
            None => "/dev/cdrom",
        }
    }

    /// The sanitizing policy the flag selects.
    pub fn sanitizer(&self) -> (r: PathSanitizer)
        ensures
            r is Ntfs <==> self.ntfs_filenames,
    {
        if self.ntfs_filenames {
            PathSanitizer::ntfs()
        } else {
            PathSanitizer::default()
        }
    }
}

} // verus!
