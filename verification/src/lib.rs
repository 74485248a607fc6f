use vstd::prelude::*;

pub mod auth;
pub mod base_form;
pub mod config;
pub mod poll;
pub mod prediction;
pub mod ranking;
pub mod sample_data;
pub mod settings;
pub mod state;
pub mod style;
pub mod text;
pub mod twitch_api;
pub mod twitch_types;

verus! {

/// The application's client id at Twitch.
pub const CLIENT_ID: &'static str = "9w729lqufngx4sztgex20eztz7o879";

/// A Twitch user as the users endpoint describes it.
#[derive(Debug, Clone)]
pub struct User {
    pub id: String,
    pub login: String,
    pub display_name: String,
}

/// The user a lookup by login found: the first entry of the answer, if any.
pub fn first_user(data: Vec<User>) -> (u: Option<User>)
    ensures
        data@.len() == 0 ==> u is None,
        data@.len() > 0 ==> u == Some(data@[0]),
{
    let mut data = data;
    if data.len() == 0 {
        None
    } else {
        Some(data.remove(0))
    }
}

/// `Result::clone` clones whichever value the result holds.
pub assume_specification<T: Clone, E: Clone>[ <Result<T, E> as Clone>::clone ](
    r: &Result<T, E>,
) -> (res: Result<T, E>)
    ensures
        res is Ok <==> r is Ok,
        res is Ok ==> cloned::<T>(r->Ok_0, res->Ok_0),
        res is Err ==> cloned::<E>(r->Err_0, res->Err_0),
;

} // verus!
