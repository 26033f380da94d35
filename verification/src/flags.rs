//! The configuration a run is given.

use vstd::prelude::*;

verus! {

/// Defines flag options.
///
/// `log_level` and `mounted_eip_file_path` are consumed by the surrounding
/// process (logging setup and the record file's location); the state machine
/// itself reads the jitter bound and the two tag pairs that a fresh
/// allocation must carry.
pub struct Flags {
    pub log_level: String,
    pub initial_wait_random_seconds: u32,

    pub id_tag_key: String,
    pub id_tag_value: String,
    pub kind_tag_key: String,
    pub kind_tag_value: String,

    pub mounted_eip_file_path: String,
}

/// Mathematical image of [`Flags`].
pub struct FlagsView {
    pub log_level: Seq<char>,
    pub initial_wait_random_seconds: u32,
    pub id_tag_key: Seq<char>,
    pub id_tag_value: Seq<char>,
    pub kind_tag_key: Seq<char>,
    pub kind_tag_value: Seq<char>,
    pub mounted_eip_file_path: Seq<char>,
}

impl View for Flags {
    type V = FlagsView;

    open spec fn view(&self) -> FlagsView {
        FlagsView {
            log_level: self.log_level@,
            initial_wait_random_seconds: self.initial_wait_random_seconds,
            id_tag_key: self.id_tag_key@,
            id_tag_value: self.id_tag_value@,
            kind_tag_key: self.kind_tag_key@,
            kind_tag_value: self.kind_tag_value@,
            mounted_eip_file_path: self.mounted_eip_file_path@,
        }
    }
}

} // verus!
