//! Where the plain recorder stores what it has recorded.

use vstd::prelude::*;

use crate::audio::database::wav_spec_from;
use crate::audio::format::{StreamConfig, WavSpec};
use crate::audio::paths::{wav_file, wav_location};
use crate::ids::{fresh_id, is_session_id};

verus! {

/// The header under which recordings are stored, and the directory they go
/// to.
pub struct WavWriter {
    spec: WavSpec,
    save_dirpath: String,
}

impl WavWriter {
    /// The header under which recordings are stored.
    pub closed spec fn header(&self) -> WavSpec {
        self.spec
    }

    /// The directory that recordings go to.
    pub closed spec fn dir_text(&self) -> Seq<char> {
        self.save_dirpath@
    }

    /// A writer for recordings of the stream `config`, stored below
    /// `save_dirpath`.
    pub fn setup(config: &StreamConfig, save_dirpath: String) -> (writer: Self)
        ensures
            writer.header() == (WavSpec {
                channels: config.channels,
                sample_rate: config.sample_rate,
                bits_per_sample: 32,
                sample_format: crate::audio::format::SampleFormat::Float,
            }),
            writer.dir_text() == save_dirpath@,
    {
        WavWriter { spec: wav_spec_from(config), save_dirpath }
    }

    /// The header under which recordings are stored.
    pub fn spec(&self) -> (spec: WavSpec)
        ensures
            spec == self.header(),
    {
        self.spec
    }

    /// The file that the next recording goes to: it lies in the writer's
    /// directory, under a new id.
    pub fn next_file(&self) -> (file: (String, String))
        ensures
            is_session_id(file.0@),
            file.1@ == wav_location(self.dir_text(), file.0@),
    {
        let id = fresh_id();
        let path = wav_file(self.save_dirpath.as_str(), id.as_str());
        (id, path)
    }
}

} // verus!
