//! From two patterns to the transfers to perform.
//!
//! [`prepare`] reads the patterns; [`assemble`] holds its decisions, on values
//! that anyone can write down. [`decide`] says what is done with one directory
//! entry and [`schedule`] with a whole listing.

use crate::error::{no_destination_name, no_source_name, PlanError, PlanErrorView};
use crate::operation::Operation;
use crate::path::{file_name, file_name_of, parent, parent_of};
use crate::pattern::{check_pattern, pattern_compiles};
use vstd::prelude::*;

verus! {

/// What one invocation does: the operation, the directory whose entries are
/// its sources, and the one destination of them all.
#[derive(Debug, PartialEq)]
pub struct Plan {
    pub operation: Operation,
    /// The directory to list, one level deep.
    pub directory: String,
    /// The file name of the destination pattern, taken literally.
    pub destination: String,
}

/// A [`Plan`] with its texts as sequences of characters.
pub struct PlanView {
    pub operation: Operation,
    pub directory: Seq<char>,
    pub destination: Seq<char>,
}

impl View for Plan {
    type V = PlanView;

    open spec fn view(&self) -> PlanView {
        PlanView {
            operation: self.operation,
            directory: self.directory@,
            destination: self.destination@,
        }
    }
}

/// One call of a file operation: `operation` from `source` to `destination`.
#[derive(Debug, PartialEq)]
pub struct Transfer {
    pub operation: Operation,
    /// The path of a directory entry.
    pub source: String,
    pub destination: String,
}

/// A [`Transfer`] with its texts as sequences of characters.
pub struct TransferView {
    pub operation: Operation,
    pub source: Seq<char>,
    pub destination: Seq<char>,
}

impl View for Transfer {
    type V = TransferView;

    open spec fn view(&self) -> TransferView {
        TransferView {
            operation: self.operation,
            source: self.source@,
            destination: self.destination@,
        }
    }
}

impl DeepView for Transfer {
    type V = TransferView;

    open spec fn deep_view(&self) -> TransferView {
        self@
    }
}

/// The directory to list for a source pattern with this parent: the parent
/// itself, or the current directory where the pattern names no directory (it
/// has no parent, or an empty one, as a bare file name has).
pub open spec fn scan_directory_of(source_parent: Option<Seq<char>>) -> Seq<char> {
    match source_parent {
        Some(directory) => if directory.len() == 0 {
            "."@
        } else {
            directory
        },
        None => "."@,
    }
}

/// The plan, or the refusal, for patterns with these parts. Three questions are
/// asked in a fixed order, and the first that fails decides: has the source
/// pattern a file name, has the destination pattern one, does the source file
/// name compile.
pub open spec fn assembled(
    operation: Operation,
    source_name: Option<Seq<char>>,
    destination_name: Option<Seq<char>>,
    source_parent: Option<Seq<char>>,
    compiles: bool,
) -> Result<PlanView, PlanErrorView> {
    if source_name.is_none() {
        Err(PlanErrorView::CustomError(no_source_name()))
    } else if destination_name.is_none() {
        Err(PlanErrorView::CustomError(no_destination_name()))
    } else if !compiles {
        Err(PlanErrorView::Regex)
    } else {
        Ok(
            PlanView {
                operation,
                directory: scan_directory_of(source_parent),
                destination: destination_name.unwrap(),
            },
        )
    }
}

/// The plan, or the refusal, for a source and a destination pattern.
pub open spec fn prepared(operation: Operation, from: Seq<char>, to: Seq<char>) -> Result<
    PlanView,
    PlanErrorView,
> {
    assembled(
        operation,
        file_name_of(from),
        file_name_of(to),
        parent_of(from),
        match file_name_of(from) {
            Some(pattern) => pattern_compiles(pattern),
            None => true,
        },
    )
}

/// An outcome of [`prepare`] or [`assemble`] as contracts see it.
pub open spec fn outcome_view(outcome: Result<Plan, PlanError>) -> Result<PlanView, PlanErrorView> {
    match outcome {
        Ok(plan) => Ok(plan@),
        Err(error) => Err(error@),
    }
}

/// What is done with one entry: nothing where its path is, letter for letter,
/// the destination; else one transfer to the destination.
pub open spec fn decided(plan: PlanView, entry: Seq<char>) -> Option<TransferView> {
    if entry == plan.destination {
        None
    } else {
        Some(
            TransferView {
                operation: plan.operation,
                source: entry,
                destination: plan.destination,
            },
        )
    }
}

/// What is done with one item of a listing. An entry that could not be read
/// (`None`) is passed over in silence; one that was read is decided on by its
/// path.
pub open spec fn decided_of_read(plan: PlanView, entry: Option<Seq<char>>) -> Option<
    TransferView,
> {
    match entry {
        Some(path) => decided(plan, path),
        None => None,
    }
}

/// [`decided_of_read`] for a fixed plan, as a function of the item.
pub open spec fn decision(plan: PlanView) -> spec_fn(Option<Seq<char>>) -> Option<TransferView> {
    |entry: Option<Seq<char>>| decided_of_read(plan, entry)
}

/// The transfers for a listing: one for each entry that was read and is not
/// skipped, in the order of the listing.
pub open spec fn scheduled(plan: PlanView, entries: Seq<Option<Seq<char>>>) -> Seq<TransferView> {
    entries.filter_map(decision(plan))
}

/// The directory to list, given the parent of the source pattern.
pub fn scan_directory(source_parent: Option<String>) -> (directory: String)
    ensures
        directory@ == scan_directory_of(source_parent.deep_view()),
{
    match source_parent {
        Some(directory) => {
            if directory.as_str().is_empty() {
                ".".to_owned()
            } else {
                directory
            }
        },
        None => ".".to_owned(),
    }
}

/// Decides on a plan from the parts of the two patterns: the file name of each,
/// the parent of the source pattern, and the refusal, if any, that compiling
/// the source file name met. A refusal is handed on as it came.
pub fn assemble(
    operation: Operation,
    source_name: Option<String>,
    destination_name: Option<String>,
    source_parent: Option<String>,
    refusal: Option<regex::Error>,
) -> (outcome: Result<Plan, PlanError>)
    ensures
        outcome_view(outcome) == assembled(
            operation,
            source_name.deep_view(),
            destination_name.deep_view(),
            source_parent.deep_view(),
            refusal.is_none(),
        ),
        outcome matches Err(PlanError::Regex(cause)) ==> refusal == Some(cause),
{
    if source_name.is_none() {
        return Err(PlanError::CustomError("no filename in source pattern".to_owned()));
    }
    let destination = match destination_name {
        Some(name) => name,
        None => {
            return Err(PlanError::CustomError("no filename in destination pattern".to_owned()));
        },
    };
    match refusal {
        Some(cause) => Err(PlanError::Regex(cause)),
        None => Ok(Plan { operation, directory: scan_directory(source_parent), destination }),
    }
}

/// Reads a source and a destination pattern.
///
/// The final component of each is its file name; that of the source must
/// compile as a regular expression. The result is the plan for listing the
/// parent of the source pattern, or the first of these refusals: the source
/// pattern has no file name, the destination pattern has none, the source file
/// name does not compile.
pub fn prepare(operation: Operation, from: &str, to: &str) -> (outcome: Result<Plan, PlanError>)
    ensures
        outcome_view(outcome) == prepared(operation, from@, to@),
        file_name_of(from@).is_none() ==> outcome_view(outcome) == Err::<PlanView, PlanErrorView>(
            PlanErrorView::CustomError(no_source_name()),
        ),
        file_name_of(from@).is_some() && file_name_of(to@).is_some() && !pattern_compiles(
            file_name_of(from@).unwrap(),
        ) ==> outcome matches Err(PlanError::Regex(_)),
        outcome matches Ok(plan) ==> plan.operation == operation && Some(plan.destination@)
            == file_name_of(to@),
{
    let source_name = file_name(from);
    let refusal = match &source_name {
        Some(pattern) => check_pattern(pattern.as_str()),
        None => None,
    };
    assemble(operation, source_name, file_name(to), parent(from), refusal)
}

/// Decides what is done with the entry at this path.
pub fn decide(plan: &Plan, entry: &str) -> (transfer: Option<Transfer>)
    ensures
        transfer.deep_view() == decided(plan@, entry@),
{
    let source = entry.to_owned();
    if source == plan.destination {
        None
    } else {
        Some(Transfer { operation: plan.operation, source, destination: plan.destination.clone() })
    }
}

/// Decides what is done with each item of a listing, and gives the transfers
/// in the order in which they are to be performed. An item is the path of an
/// entry, or `None` for an entry that could not be read.
pub fn schedule(plan: &Plan, entries: &Vec<Option<String>>) -> (transfers: Vec<Transfer>)
    ensures
        transfers.deep_view() == scheduled(plan@, entries.deep_view()),
        transfers.len() <= entries.len(),
        forall|i: int|
            0 <= i < transfers.len() ==> (#[trigger] transfers[i]).destination@
                == plan.destination@ && transfers[i].operation == plan.operation,
{
    let mut transfers: Vec<Transfer> = Vec::new();
    let ghost listing = entries.deep_view();
    let mut i: usize = 0;
    while i < entries.len()
        invariant
            i <= entries.len(),
            listing == entries.deep_view(),
            transfers.len() <= i,
            transfers.deep_view() =~= scheduled(plan@, listing.take(i as int)),
            forall|k: int|
                0 <= k < transfers.len() ==> (#[trigger] transfers[k]).destination@
                    == plan.destination@ && transfers[k].operation == plan.operation,
        decreases entries.len() - i,
    {
        let ghost before = transfers.deep_view();
        proof {
            listing.lemma_filter_map_take_succ(decision(plan@), i as int);
            assert(listing[i as int] == entries[i as int].deep_view());
        }
        let decision = match &entries[i] {
            Some(path) => decide(plan, path.as_str()),
            None => None,
        };
        match decision {
            Some(transfer) => {
                transfers.push(transfer);
                assert(transfers.deep_view() =~= before + seq![transfer@]);
            },
            None => {},
        }
        i += 1;
    }
    proof {
        assert(listing.take(i as int) =~= listing);
    }
    transfers
}

/// Every entry of a listing gets the same destination, that of the plan,
/// whatever its own name is: two entries that are both transferred are sent to
/// one and the same place.
pub proof fn lemma_destination_is_constant(plan: PlanView, first: Seq<char>, second: Seq<char>)
    ensures
        decided(plan, first) matches Some(transfer) ==> transfer.destination == plan.destination,
        decided(plan, first).is_some() && decided(plan, second).is_some() ==> decided(
            plan,
            first,
        ).unwrap().destination == decided(plan, second).unwrap().destination,
{
}

/// An entry that was read is skipped exactly where its path is the
/// destination, and every other entry is itself the source of its transfer.
pub proof fn lemma_skips_only_destination(plan: PlanView, entry: Seq<char>)
    ensures
        decided(plan, entry).is_none() <==> entry == plan.destination,
        decided(plan, entry) matches Some(transfer) ==> transfer.source == entry
            && transfer.operation == plan.operation,
{
}

} // verus!
