//! The votes of the signers.

use crate::compose::Conversion;
use crate::error::StoreError;
use crate::fetch::{rows_view, FetchAll};
use crate::model::{SignerVote, SignerVotes};
use crate::procedure::Operation;
use crate::value::Datum;
use vstd::prelude::*;

verus! {

/// Collects votes.
#[derive(Debug)]
pub struct VotesOf;

impl View for VotesOf {
    type V = ();

    open spec fn view(&self) -> () {
        ()
    }
}

impl Conversion for VotesOf {
    type First = FetchAll<SignerVote>;

    type Converted = SignerVotes;

    type ConvertedView = Seq<Seq<Datum>>;

    open spec fn converted(converted: SignerVotes) -> Seq<Seq<Datum>> {
        rows_view(converted.0@)
    }

    open spec fn conversion(state: (), output: Seq<Seq<Datum>>) -> Result<
        Seq<Seq<Datum>>,
        StoreError,
    > {
        Ok(output)
    }

    fn convert(self, output: Vec<SignerVote>) -> (result: Result<SignerVotes, StoreError>) {
        assert(Self::First::output(output) == rows_view(output@));
        Ok(SignerVotes(output))
    }
}

} // verus!
