//! The domain records the endpoints return, and the enumerations shared by
//! their parameter records. Every enumeration encodes to a fixed wire token;
//! the token tables live in the `value` methods.

pub mod model;

use vstd::prelude::*;

verus! {

/// A creator record, as the creators endpoint returns it.
#[derive(Debug, Clone)]
pub struct Creator {
    /// The username of the creator.
    pub username: String,
    /// The amount of models linked to this user.
    pub model_count: Option<usize>,
    /// Url to get all models from this user.
    pub link: String,
}

/// The safety level of a model or an image. The lowest level encodes to the
/// token `None` on the wire.
#[derive(Debug, Clone, Copy)]
pub enum Nsfw {
    Safe,
    Soft,
    Mature,
    X,
}

impl Nsfw {
    /// The wire token of each level.
    pub open spec fn spec_value(self) -> Seq<char> {
        match self {
            Nsfw::Safe => "None"@,
            Nsfw::Soft => "Soft"@,
            Nsfw::Mature => "Mature"@,
            Nsfw::X => "X"@,
        }
    }

    /// The exact token the remote vocabulary accepts for this level.
    pub fn value(self) -> (r: &'static str)
        ensures
            r@ == self.spec_value(),
    {
        match self {
            Nsfw::Safe => "None",
            Nsfw::Soft => "Soft",
            Nsfw::Mature => "Mature",
            Nsfw::X => "X",
        }
    }
}

impl Default for Nsfw {
    /// The default safety level.
    fn default() -> (r: Nsfw)
        ensures
            r is Safe,
    {
        Nsfw::Safe
    }
}

/// The time window a query is restricted to.
#[derive(Debug, Clone, Copy)]
pub enum Period {
    AllTime,
    Year,
    Month,
    Week,
    Day,
}

impl Period {
    /// The wire token of each window.
    pub open spec fn spec_value(self) -> Seq<char> {
        match self {
            Period::AllTime => "AllTime"@,
            Period::Year => "Year"@,
            Period::Month => "Month"@,
            Period::Week => "Week"@,
            Period::Day => "Day"@,
        }
    }

    /// The exact token the remote vocabulary accepts for this window.
    pub fn value(self) -> (r: &'static str)
        ensures
            r@ == self.spec_value(),
    {
        match self {
            Period::AllTime => "AllTime",
            Period::Year => "Year",
            Period::Month => "Month",
            Period::Week => "Week",
            Period::Day => "Day",
        }
    }
}

impl Default for Period {
    /// The default time window.
    fn default() -> (r: Period)
        ensures
            r is Month,
    {
        Period::Month
    }
}

/// A model record, as the models endpoint returns it.
#[derive(Debug, Clone)]
pub struct Model {
    /// The identifier for the model.
    pub id: usize,
    /// The name of the model.
    pub name: String,
    /// The description of the model (HTML).
    pub description: String,
    /// The model type.
    pub _type: model::Type,
    /// The tags associated with the model.
    pub tags: Vec<String>,
    /// The mode in which the model is currently on.
    pub mode: Option<model::Mode>,
    /// Creator of this model.
    pub creator: model::Creator,
    /// Stats of this model.
    pub stats: model::Stats,
    /// Versions of this model.
    pub versions: Vec<model::Version>,
}

impl Model {
    /// The parameter record the model's image fetch uses: only the model id
    /// filter is set.
    pub fn images_params(&self) -> (r: crate::api::endpoints::images::Params)
        ensures
            r.model_id == Some(self.id),
            r.query is None,
            r.limit is None,
            r.post_id is None,
            r.model_version_id is None,
            r.username is None,
            r.nsfw is None,
            r.sort is None,
            r.period is None,
    {
        let mut p = crate::api::endpoints::images::Params::default();
        p.model_id = Some(self.id);
        p
    }
}

} // verus!
