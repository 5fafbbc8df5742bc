//! What one run of the program does, decided from its flags.

use vstd::prelude::*;
use crate::text::text_equal;

verus! {

/// What an option value asks the program to do.
#[derive(Clone, Copy, Debug, PartialEq, Eq, Structural)]
pub enum OptionAction {
    /// Open the environment file.
    OpenEnv,
    /// Download the environment file again, replacing the one at hand.
    ForceDownloadEnv,
    /// Nothing: the value names no option.
    Nothing,
}

/// One thing the program does in a run.
#[derive(Clone, Copy, Debug, PartialEq, Eq, Structural)]
pub enum Step {
    /// Print the header.
    Header,
    /// Read the list file and fetch what it lists.
    ReadDataset,
    /// Render the readme block of the list file and store the page.
    RenderAndSave,
    /// Fetch the lists of the user that was named in place of a list file.
    FetchUserLists,
    /// Scrape for the link that was given.
    Scrape,
    /// Carry out what the option value asks for.
    Options(OptionAction),
}

/// The action that an option value names.
pub open spec fn action_of(value: Seq<char>) -> OptionAction {
    if value == "open-env"@ {
        OptionAction::OpenEnv
    } else if value == "force-download-env"@ {
        OptionAction::ForceDownloadEnv
    } else {
        OptionAction::Nothing
    }
}

/// The steps of a run, in order. The header comes first. What `run` names
/// is worked on only where it is not empty: a user's lists are fetched,
/// a list file is read and then rendered. Scraping and the option come
/// last, whatever the flags are.
pub open spec fn steps_of(run: Seq<char>, names_user: bool, option: Seq<char>) -> Seq<Step> {
    let work = if run.len() == 0 {
        Seq::<Step>::empty()
    } else if names_user {
        seq![Step::FetchUserLists]
    } else {
        seq![Step::ReadDataset, Step::RenderAndSave]
    };
    seq![Step::Header] + work + seq![Step::Scrape, Step::Options(action_of(option))]
}

/// The program's entry point.
pub struct Paimon;

impl Paimon {
    /// The action that the option `value` names.
    pub fn options(value: &str) -> (action: OptionAction)
        ensures
            action == action_of(value@),
    {
        if text_equal(value, "open-env") {
            OptionAction::OpenEnv
        } else if text_equal(value, "force-download-env") {
            OptionAction::ForceDownloadEnv
        } else {
            OptionAction::Nothing
        }
    }

    /// The steps of one run, in order, for the values of the flags `run`
    /// and `options`; `names_user` tells whether `run` names a user in
    /// place of a list file.
    pub fn init(run: &str, names_user: bool, option: &str) -> (steps: Vec<Step>)
        ensures
            steps@ == steps_of(run@, names_user, option@),
    {
        let mut steps: Vec<Step> = Vec::new();
        steps.push(Step::Header);
        if run.unicode_len() != 0 {
            if names_user {
                steps.push(Step::FetchUserLists);
            } else {
                steps.push(Step::ReadDataset);
                steps.push(Step::RenderAndSave);
            }
        }
        steps.push(Step::Scrape);
        steps.push(Step::Options(Self::options(option)));
        assert(steps@ =~= steps_of(run@, names_user, option@));
        steps
    }
}

} // verus!
