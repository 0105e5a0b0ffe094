//! The client: a configuration and the user contexts made from it.

use crate::datafile::{Datafile, DatafileView};
use vstd::prelude::*;

pub mod user;

pub use user::{UserAttributes, UserContext, UserContextView};

verus! {

/// A client as a value.
pub struct ClientView {
    pub datafile: DatafileView,
}

/// Holds the configuration that decisions are made from.
#[derive(Debug)]
pub struct Client {
    datafile: Datafile,
}

impl View for Client {
    type V = ClientView;

    closed spec fn view(&self) -> ClientView {
        ClientView { datafile: self.datafile@ }
    }
}

impl Client {
    /// A client for the given configuration.
    pub fn new(datafile: Datafile) -> (client: Client)
        ensures
            client@ == (ClientView { datafile: datafile@ }),
    {
        Client { datafile }
    }

    /// The configuration of the client.
    pub fn datafile(&self) -> (datafile: &Datafile)
        ensures
            datafile@ == self@.datafile,
    {
        &self.datafile
    }

    /// A context for the user with the given id, without attributes.
    pub fn create_user_context<'a>(&'a self, user_id: &'a str) -> (context: UserContext<'a>)
        ensures
            context@ == (UserContextView {
                client: self@,
                user_id: user_id@,
                attributes: Map::<Seq<char>, Seq<char>>::empty(),
            }),
    {
        UserContext::new(self, user_id, UserAttributes::new())
    }
}

} // verus!
