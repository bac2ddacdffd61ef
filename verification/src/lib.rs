//! A client for an analysis process that answers with one binary payload:
//! how to start it, and how to read its answer into a model of the project.

pub mod cbor;
pub mod client;
pub mod decode;
pub mod payload;
pub mod proto;
pub mod symbolflags;

use vstd::prelude::*;

verus! {

/// A session that is ready, for the one call that loads the project.
pub struct Api {
    client: client::Client,
}

impl Api {
    /// The session that this value holds.
    pub closed spec fn client(self) -> client::Client {
        self.client
    }

    /// Makes the session ready.
    pub fn with_uninitialized_client(client: client::UninitializedClient) -> (r: Result<
        Api,
        client::ProtocolError,
    >)
        ensures
            r is Ok,
            r->Ok_0.client().launch() == client.launch(),
    {
        let client = client.init()?;
        Ok(Api { client })
    }

    /// Ends the session's one load. `read` is how reading the process's
    /// output to its end went: the bytes, or the text of what stopped the
    /// reading.
    pub fn load_project(self, read: Result<&Vec<u8>, String>) -> (r: Result<
        proto::ProjectResponse,
        client::ProtocolError,
    >)
        ensures
            match read {
                Ok(buf) => match r {
                    Ok(project) => client::answer_decoded(buf@) == Ok::<
                        proto::ProjectResponseView,
                        client::Failure,
                    >(project@),
                    Err(e) => client::answer_decoded(buf@) == Err::<
                        proto::ProjectResponseView,
                        client::Failure,
                    >(e@),
                },
                Err(cause) => r is Err && r->Err_0@ == client::Failure::Error(cause@),
            },
    {
        let mut client = self.client;
        client.load_project(read)
    }
}

} // verus!
