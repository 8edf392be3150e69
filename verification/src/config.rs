//! The configuration of a run.
use crate::profile::GrainProfile;
use vstd::prelude::*;
use vstd::string::StringExecFns;

verus! {

/// Where the recordings are, where the grains go, which profiles are run
/// and with how much of the machine.
#[derive(Clone, Debug)]
pub struct GranulatorConfig {
    pub database_path: String,
    pub audio_source_directory: String,
    pub grain_profiles: Vec<GrainProfile>,
    pub max_audio_chunk_size: usize,
    pub max_num_threads: usize,
}

/// Whether profile `i` is the first whose grains would not advance.
pub open spec fn first_stalled(profiles: Seq<GrainProfile>, i: int) -> bool {
    &&& 0 <= i < profiles.len()
    &&& !profiles[i].well_formed()
    &&& forall|k: int| 0 <= k < i ==> (#[trigger] profiles[k]).well_formed()
}

impl GranulatorConfig {
    /// Whether every profile can be run: none has a spacing of zero.
    pub open spec fn well_formed(&self) -> bool {
        forall|k: int| 0 <= k < self.grain_profiles.len() ==> (#[trigger] self.grain_profiles[k]).well_formed()
    }

    /// The configuration that is used when none can be had: a database
    /// beside the program, recordings from the working directory, no
    /// profile, chunks of one minute at 44100 frames a second, and as many
    /// threads as the machine offers.
    pub fn fallback() -> (config: GranulatorConfig)
        ensures
            config.database_path@ == "grains.sqlite3"@,
            config.audio_source_directory@ == "."@,
            config.grain_profiles@ == Seq::<GrainProfile>::empty(),
            config.max_audio_chunk_size == 2646000,
            config.max_num_threads == 0,
            config.well_formed(),
    {
        GranulatorConfig {
            database_path: String::from_str("grains.sqlite3"),
            audio_source_directory: String::from_str("."),
            grain_profiles: Vec::new(),
            max_audio_chunk_size: 2646000,
            max_num_threads: 0,
        }
    }

    /// Looks for a profile that cannot be run.  The answer is the index of
    /// the first profile with a spacing of zero, and there is none exactly
    /// when the configuration is well formed.
    pub fn stalled_profile(&self) -> (found: Option<usize>)
        ensures
            match found {
                Some(i) => first_stalled(self.grain_profiles@, i as int),
                None => self.well_formed(),
            },
    {
        let mut i: usize = 0;
        while i < self.grain_profiles.len()
            invariant
                i <= self.grain_profiles.len(),
                forall|k: int| 0 <= k < i ==> (#[trigger] self.grain_profiles[k]).well_formed(),
            decreases self.grain_profiles.len() - i,
        {
            if self.grain_profiles[i].grain_spacing < 1 {
                return Some(i);
            }
            i += 1;
        }
        None
    }

    /// How many worker threads a run gets: the configured number, or,
    /// where that is zero, what the machine was found to offer, or one
    /// where nothing was found.
    pub fn worker_count(&self, detected: Option<usize>) -> (count: usize)
        ensures
            count >= 1,
            count == if self.max_num_threads >= 1 {
                self.max_num_threads
            } else {
                match detected {
                    Some(offered) if offered >= 1 => offered,
                    _ => 1,
                }
            },
    {
        if self.max_num_threads >= 1 {
            self.max_num_threads
        } else {
            match detected {
                Some(offered) => if offered >= 1 {
                    offered
                } else {
                    1
                },
                None => 1,
            }
        }
    }
}

} // verus!
