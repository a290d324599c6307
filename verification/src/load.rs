//! Where the configuration file lives, and the steps of loading it.
//!
//! Loading opens the file beside the mission state; when it is missing, a
//! default configuration is written there first and opening is tried again.
use vstd::prelude::*;

verus! {

/// The name of the configuration file that belongs to a mission state file:
/// the state file's name followed by `_CFG`, or `CFG` when the state path has
/// no file name.
pub open spec fn cfg_file_name_of(state_file_name: Option<Seq<char>>) -> Seq<char> {
    match state_file_name {
        Some(n) => n + "_CFG"@,
        None => "CFG"@,
    }
}

/// Distinct mission state files have distinct configuration files: the
/// configuration file name keeps the state file name as its prefix.
pub proof fn lemma_cfg_file_names_distinct(a: Seq<char>, b: Seq<char>)
    requires
        a != b,
    ensures
        a + "_CFG"@ != b + "_CFG"@,
        (a + "_CFG"@).subrange(0, a.len() as int) == a,
{
    reveal_strlit("_CFG");
    let x = a + "_CFG"@;
    let y = b + "_CFG"@;
    assert(x.subrange(0, a.len() as int) =~= a);
    if x == y {
        assert(x.len() == a.len() + "_CFG"@.len());
        assert(y.len() == b.len() + "_CFG"@.len());
        assert(a.len() == b.len());
        assert(y.subrange(0, b.len() as int) =~= b);
    }
}

/// The configuration file's name, from the file name of the mission state path.
pub fn cfg_file_name(state_file_name: Option<&str>) -> (name: String)
    ensures
        name@ == cfg_file_name_of(
            match state_file_name {
                Some(n) => Some(n@),
                None => None,
            },
        ),
        state_file_name matches Some(n) ==> name@ == n@ + "_CFG"@,
        state_file_name is None ==> name@ == "CFG"@,
{
    match state_file_name {
        Some(n) => {
            let mut s = n.to_owned();
            s.append("_CFG");
            s
        },
        None => "CFG".to_owned(),
    }
}

/// A step of loading the configuration file.
#[derive(Clone, Copy, Debug, PartialEq, Eq, Structural)]
pub enum LoadStage {
    /// Open the configuration file.
    Opening,
    /// Create the missing configuration file.
    Creating,
    /// Write the default configuration into the new file.
    WritingDefault,
    /// Decode the opened file.
    Decoding,
}

/// How a step went.
#[derive(Clone, Copy, Debug, PartialEq, Eq, Structural)]
pub enum LoadOutcome {
    Succeeded,
    /// The file was not there.
    NotFound,
    /// Any other failure.
    Failed,
}

/// Why loading the configuration failed.
#[derive(Clone, Copy, Debug, PartialEq, Eq, Structural)]
pub enum LoadError {
    CreatingCfg,
    WritingDefaultCfg,
    OpeningConfig,
    CfgDecode,
}

impl LoadError {
    /// The message that the error carries.
    pub fn message(&self) -> (m: &'static str)
        ensures
            m@ == match self {
                LoadError::CreatingCfg => "creating cfg"@,
                LoadError::WritingDefaultCfg => "writing default cfg"@,
                LoadError::OpeningConfig => "opening config"@,
                LoadError::CfgDecode => "cfg decode error"@,
            },
    {
        match self {
            LoadError::CreatingCfg => "creating cfg",
            LoadError::WritingDefaultCfg => "writing default cfg",
            LoadError::OpeningConfig => "opening config",
            LoadError::CfgDecode => "cfg decode error",
        }
    }
}

/// What loading does next.
#[derive(Clone, Copy, Debug, PartialEq, Eq, Structural)]
pub enum LoadNext {
    /// Carry on with this step.
    Step(LoadStage),
    /// The configuration is decoded.
    Done,
    /// Give up with this error.
    Fail(LoadError),
}

/// The step after `stage` went as `outcome` says, by the spec table.
pub open spec fn load_transition(stage: LoadStage, outcome: LoadOutcome) -> LoadNext {
    match (stage, outcome) {
        (LoadStage::Opening, LoadOutcome::Succeeded) => LoadNext::Step(LoadStage::Decoding),
        (LoadStage::Opening, LoadOutcome::NotFound) => LoadNext::Step(LoadStage::Creating),
        (LoadStage::Opening, LoadOutcome::Failed) => LoadNext::Fail(LoadError::OpeningConfig),
        (LoadStage::Creating, LoadOutcome::Succeeded) => LoadNext::Step(LoadStage::WritingDefault),
        (LoadStage::Creating, _) => LoadNext::Fail(LoadError::CreatingCfg),
        (LoadStage::WritingDefault, LoadOutcome::Succeeded) => LoadNext::Step(LoadStage::Opening),
        (LoadStage::WritingDefault, _) => LoadNext::Fail(LoadError::WritingDefaultCfg),
        (LoadStage::Decoding, LoadOutcome::Succeeded) => LoadNext::Done,
        (LoadStage::Decoding, _) => LoadNext::Fail(LoadError::CfgDecode),
    }
}

/// A configuration file that exists and decodes is loaded by opening and
/// decoding it, nothing else: no step creates or writes a file.
pub proof fn lemma_existing_file_is_only_read()
    ensures
        load_transition(LoadStage::Opening, LoadOutcome::Succeeded) == LoadNext::Step(LoadStage::Decoding),
        load_transition(LoadStage::Decoding, LoadOutcome::Succeeded) == LoadNext::Done,
{
}

/// Decides what loading does after a step: a missing file is created and
/// filled with the default configuration before it is opened again; every
/// other failure ends loading with the error of its step.
pub fn next_load_step(stage: LoadStage, outcome: LoadOutcome) -> (next: LoadNext)
    ensures
        next == load_transition(stage, outcome),
        stage == LoadStage::Opening && outcome == LoadOutcome::Succeeded ==> next == LoadNext::Step(
            LoadStage::Decoding,
        ),
        stage == LoadStage::Opening && outcome == LoadOutcome::NotFound ==> next == LoadNext::Step(
            LoadStage::Creating,
        ),
        stage == LoadStage::Opening && outcome == LoadOutcome::Failed ==> next == LoadNext::Fail(
            LoadError::OpeningConfig,
        ),
        stage == LoadStage::Creating && outcome == LoadOutcome::Succeeded ==> next == LoadNext::Step(
            LoadStage::WritingDefault,
        ),
        stage == LoadStage::Creating && outcome != LoadOutcome::Succeeded ==> next == LoadNext::Fail(
            LoadError::CreatingCfg,
        ),
        stage == LoadStage::WritingDefault && outcome == LoadOutcome::Succeeded ==> next
            == LoadNext::Step(LoadStage::Opening),
        stage == LoadStage::WritingDefault && outcome != LoadOutcome::Succeeded ==> next
            == LoadNext::Fail(LoadError::WritingDefaultCfg),
        stage == LoadStage::Decoding && outcome == LoadOutcome::Succeeded ==> next == LoadNext::Done,
        stage == LoadStage::Decoding && outcome != LoadOutcome::Succeeded ==> next == LoadNext::Fail(
            LoadError::CfgDecode,
        ),
{
    match stage {
        LoadStage::Opening => match outcome {
            LoadOutcome::Succeeded => LoadNext::Step(LoadStage::Decoding),
            LoadOutcome::NotFound => LoadNext::Step(LoadStage::Creating),
            LoadOutcome::Failed => LoadNext::Fail(LoadError::OpeningConfig),
        },
        LoadStage::Creating => match outcome {
            LoadOutcome::Succeeded => LoadNext::Step(LoadStage::WritingDefault),
            _ => LoadNext::Fail(LoadError::CreatingCfg),
        },
        LoadStage::WritingDefault => match outcome {
            LoadOutcome::Succeeded => LoadNext::Step(LoadStage::Opening),
            _ => LoadNext::Fail(LoadError::WritingDefaultCfg),
        },
        LoadStage::Decoding => match outcome {
            LoadOutcome::Succeeded => LoadNext::Done,
            _ => LoadNext::Fail(LoadError::CfgDecode),
        },
    }
}

} // verus!
