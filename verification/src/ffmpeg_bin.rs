//! Where the two tools lie. The program looks at each place of its search
//! chain and reports what it saw; the choice among the places is made here.

use vstd::prelude::*;
use vstd::string::*;
use crate::paths::{entry_at, entry_name_at, held_text};

verus! {

/// The resolved paths of the encoding tool and of the probing tool.
#[derive(Debug, Clone, PartialEq, Eq)]
pub struct FFmpegPaths {
    pub ffmpeg_path: String,
    pub ffprobe_path: String,
}

/// The places in which the tools are looked for.
#[derive(Debug, Clone, Copy, PartialEq, Eq, Structural)]
pub enum Place {
    /// The folder of the running program.
    BesideProgram,
    /// The folder in which the build staged the tools.
    BuildStaging,
    /// The folder `ffmpeg` under the working directory.
    LocalFolder,
    /// The search path of the system.
    SearchPath,
    /// The folder into which the tools are downloaded; they are fetched
    /// once where they are in no place at all.
    Downloaded,
}

/// The places in the order in which they are looked at.
pub open spec fn search_order() -> Seq<Place> {
    seq![
        Place::BesideProgram,
        Place::BuildStaging,
        Place::LocalFolder,
        Place::SearchPath,
        Place::Downloaded,
    ]
}

impl Place {
    /// The places in the order in which they are looked at.
    pub fn all() -> (places: Vec<Place>)
        ensures
            places@ == search_order(),
    {
        let mut places: Vec<Place> = Vec::new();
        places.push(Place::BesideProgram);
        places.push(Place::BuildStaging);
        places.push(Place::LocalFolder);
        places.push(Place::SearchPath);
        places.push(Place::Downloaded);
        assert(places@ =~= search_order());
        places
    }
}

/// One place of the search chain: where the two tools would lie there, and
/// whether each was seen.
#[derive(Debug, Clone, PartialEq, Eq)]
pub struct ToolSurvey {
    pub ffmpeg_path: String,
    pub ffprobe_path: String,
    pub ffmpeg_exists: bool,
    pub ffprobe_exists: bool,
}

/// One entry of the archive of the tools that is to be unpacked.
#[derive(Debug, Clone, PartialEq, Eq)]
pub struct Extraction {
    /// Position of the entry in the archive.
    pub index: usize,
    /// Name of the file that the entry is unpacked to.
    pub file_name: String,
}

/// An `Extraction` with its file name as a sequence of characters.
pub ghost struct ExtractionModel {
    pub index: int,
    pub file_name: Seq<char>,
}

impl View for Extraction {
    type V = ExtractionModel;

    open spec fn view(&self) -> ExtractionModel {
        ExtractionModel { index: self.index as int, file_name: self.file_name@ }
    }
}

/// The extractions of a list with their texts as sequences of characters.
pub open spec fn extractions(list: Seq<Extraction>) -> Seq<ExtractionModel> {
    list.map_values(|extraction: Extraction| extraction@)
}

/// The names of the entries of an archive as sequences of characters.
pub open spec fn entry_names(entries: Seq<String>) -> Seq<Seq<char>> {
    entries.map_values(|entry: String| entry@)
}

/// The file name under which an entry of the archive is unpacked: that of
/// the entry where it is one of the two tools in a folder `bin`; `None` for
/// every other entry.
pub open spec fn tool_in_archive(entry: Seq<char>) -> Option<Seq<char>> {
    match entry_name_at(entry, "bin/ffmpeg.exe"@) {
        Some(name) => Some(name),
        None => entry_name_at(entry, "bin/ffprobe.exe"@),
    }
}

/// What is unpacked of the first `upto` entries of an archive, in their
/// order.
pub open spec fn unpacked(entries: Seq<Seq<char>>, upto: int) -> Seq<ExtractionModel>
    decreases upto,
{
    if upto <= 0 {
        Seq::empty()
    } else {
        let before = unpacked(entries, upto - 1);
        match tool_in_archive(entries[upto - 1]) {
            Some(file_name) => before.push(ExtractionModel { index: upto - 1, file_name }),
            None => before,
        }
    }
}

/// Why no paths were resolved.
#[derive(Debug, Clone, Copy, PartialEq, Eq, Structural)]
pub enum LocateError {
    /// No place of the chain holds both tools.
    NotFound,
}

/// Both tools were seen at the place.
pub open spec fn usable(survey: ToolSurvey) -> bool {
    survey.ffmpeg_exists && survey.ffprobe_exists
}

/// Index of the first usable place of `chain`, or its length where none is.
pub open spec fn first_usable(chain: Seq<ToolSurvey>) -> int
    decreases chain.len(),
{
    if chain.len() == 0 {
        0
    } else if usable(chain[0]) {
        0
    } else {
        1 + first_usable(chain.subrange(1, chain.len() as int))
    }
}

/// `first_usable` is the one index with a usable place and none before it.
pub proof fn first_usable_is(chain: Seq<ToolSurvey>, at: int)
    requires
        0 <= at <= chain.len(),
        forall|i: int| 0 <= i < at ==> !usable(#[trigger] chain[i]),
        at < chain.len() ==> usable(chain[at]),
    ensures
        first_usable(chain) == at,
    decreases at,
{
    if at > 0 {
        let rest = chain.subrange(1, chain.len() as int);
        assert(!usable(chain[0]));
        assert forall|i: int| 0 <= i < at - 1 implies !usable(#[trigger] rest[i]) by {
            assert(rest[i] == chain[i + 1]);
        }
        if at < chain.len() {
            assert(rest[at - 1] == chain[at]);
        }
        first_usable_is(rest, at - 1);
    }
}

impl FFmpegPaths {
    /// The paths are those of `survey`.
    pub open spec fn taken_from(&self, survey: ToolSurvey) -> bool {
        self.ffmpeg_path@ == survey.ffmpeg_path@ && self.ffprobe_path@ == survey.ffprobe_path@
    }

    /// Walks the search chain in order and takes the first place that holds
    /// both tools.
    pub fn initialize(chain: &Vec<ToolSurvey>) -> (found: Result<FFmpegPaths, LocateError>)
        ensures
            match found {
                Ok(paths) => first_usable(chain@) < chain.len() && paths.taken_from(
                    chain@[first_usable(chain@)],
                ),
                Err(error) => first_usable(chain@) == chain.len() && error == LocateError::NotFound,
            },
    {
        let mut i: usize = 0;
        while i < chain.len()
            invariant
                i <= chain.len(),
                forall|j: int| 0 <= j < i ==> !usable(#[trigger] chain@[j]),
            decreases chain.len() - i,
        {
            if is_ffmpeg_available(&chain[i]) {
                proof {
                    first_usable_is(chain@, i as int);
                }
                return Ok(
                    FFmpegPaths {
                        ffmpeg_path: chain[i].ffmpeg_path.clone(),
                        ffprobe_path: chain[i].ffprobe_path.clone(),
                    },
                );
            }
            i += 1;
        }
        proof {
            first_usable_is(chain@, chain.len() as int);
        }
        Err(LocateError::NotFound)
    }

    /// Goes through the entries of the downloaded archive and picks what
    /// is unpacked: the two tools, wherever their folder `bin` lies.
    pub fn download_ffmpeg(entries: &Vec<String>) -> (plan: Vec<Extraction>)
        ensures
            extractions(plan@) == unpacked(entry_names(entries@), entries.len() as int),
    {
        let mut plan: Vec<Extraction> = Vec::new();
        let mut i: usize = 0;
        assert(extractions(plan@) =~= Seq::empty());
        while i < entries.len()
            invariant
                i <= entries.len(),
                extractions(plan@) == unpacked(entry_names(entries@), i as int),
            decreases entries.len() - i,
        {
            let ghost before = extractions(plan@);
            let found = match entry_at(entries[i].as_str(), "bin/ffmpeg.exe") {
                Some(name) => Some(name),
                None => entry_at(entries[i].as_str(), "bin/ffprobe.exe"),
            };
            assert(entry_names(entries@)[i as int] == entries@[i as int]@);
            match found {
                Some(file_name) => {
                    plan.push(Extraction { index: i, file_name });
                    assert(extractions(plan@) =~= before.push(plan@[plan.len() - 1]@));
                },
                None => {},
            }
            i += 1;
        }
        plan
    }

    /// The resolved paths, looked for once: where `resolved` holds paths
    /// they are handed out as they are and the chain is not looked at;
    /// else the chain is walked and what it gives is kept in `resolved`.
    pub fn get(resolved: &mut Option<FFmpegPaths>, chain: &Vec<ToolSurvey>) -> (found: Result<
        FFmpegPaths,
        LocateError,
    >)
        ensures
            match *old(resolved) {
                Some(kept) => *final(resolved) == *old(resolved) && found.is_ok()
                    && found.unwrap().ffmpeg_path@ == kept.ffmpeg_path@
                    && found.unwrap().ffprobe_path@ == kept.ffprobe_path@,
                None => match found {
                    Ok(paths) => first_usable(chain@) < chain.len() && paths.taken_from(
                        chain@[first_usable(chain@)],
                    ) && final(resolved).is_some() && final(resolved).unwrap().taken_from(
                        chain@[first_usable(chain@)],
                    ),
                    Err(error) => first_usable(chain@) == chain.len() && error
                        == LocateError::NotFound && final(resolved).is_none(),
                },
            },
    {
        match resolved {
            Some(kept) => Ok(
                FFmpegPaths {
                    ffmpeg_path: kept.ffmpeg_path.clone(),
                    ffprobe_path: kept.ffprobe_path.clone(),
                },
            ),
            None => match FFmpegPaths::initialize(chain) {
                Ok(paths) => {
                    let handed = FFmpegPaths {
                        ffmpeg_path: paths.ffmpeg_path.clone(),
                        ffprobe_path: paths.ffprobe_path.clone(),
                    };
                    *resolved = Some(paths);
                    Ok(handed)
                },
                Err(error) => Err(error),
            },
        }
    }
}

/// Path of the encoding tool.
pub fn get_ffmpeg_path(paths: &FFmpegPaths) -> (path: &String)
    ensures
        path == &paths.ffmpeg_path,
{
    &paths.ffmpeg_path
}

/// Path of the probing tool.
pub fn get_ffprobe_path(paths: &FFmpegPaths) -> (path: &String)
    ensures
        path == &paths.ffprobe_path,
{
    &paths.ffprobe_path
}

/// Whether both tools were seen at the place.
pub fn is_ffmpeg_available(survey: &ToolSurvey) -> (available: bool)
    ensures
        available == usable(*survey),
{
    survey.ffmpeg_exists && survey.ffprobe_exists
}

} // verus!
