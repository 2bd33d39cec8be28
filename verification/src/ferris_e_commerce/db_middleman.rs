use vstd::prelude::*;

use super::connection_handler::{HandleSolvedAskForStockProductFromDB, ResponseGetNewLocalId};
use crate::model::messages::{DBRequest, DBResponse};

verus! {

broadcast use vstd::string::to_string_from_display_ensures_for_str;

pub const UNREQUESTED_LOCAL_ID: &'static str =
    "Received new local id from db but no sl middleman was requesting it";

/// The end of the connection with the database, which remembers whether a
/// local shop waits for a new id.
#[derive(Debug)]
pub struct DBMiddleman {
    awaiting_local_id: bool,
}

/// A local shop waits for a new id.
#[derive(Debug, PartialEq, Eq)]
pub struct RequestGetNewLocalId {}

/// What an answer of the database asks of the server.
#[derive(Debug)]
pub enum DBRouted {
    NewLocalId(ResponseGetNewLocalId),
    SolvedStock(HandleSolvedAskForStockProductFromDB),
}

impl DBMiddleman {
    pub closed spec fn awaiting(&self) -> bool {
        self.awaiting_local_id
    }

    pub fn new() -> (middleman: DBMiddleman)
        ensures
            !middleman.awaiting(),
    {
        DBMiddleman { awaiting_local_id: false }
    }

    /// Notes that a local shop waits for an id, and asks the database for one.
    pub fn handle_request_get_new_local_id(&mut self, msg: RequestGetNewLocalId) -> (request: DBRequest)
        ensures
            final(self).awaiting(),
            request matches DBRequest::GetNewLocalId,
    {
        self.awaiting_local_id = true;
        DBRequest::GetNewLocalId
    }

    /// What an answer of the database asks of the server; a new id goes to
    /// the local shop that waits for it.
    pub fn handle_online_msg(&mut self, response: DBResponse) -> (result: Result<DBRouted, String>)
        ensures
            match response {
                DBResponse::NewLocalId { local_id } => if old(self).awaiting() {
                    &&& result matches Ok(DBRouted::NewLocalId(answer)) && answer.db_response_id == local_id
                    &&& !final(self).awaiting()
                } else {
                    &&& result matches Err(e) && e@ == UNREQUESTED_LOCAL_ID@
                    &&& !final(self).awaiting()
                },
                DBResponse::ProductQuantityFromAllLocals { ss_id, worker_id, product_name, product_quantity_by_local_id } => {
                    &&& result matches Ok(DBRouted::SolvedStock(solved)) && solved.ss_id == ss_id
                        && solved.worker_id == worker_id && solved.product_name@ == product_name@
                        && solved.stock@ == product_quantity_by_local_id@
                    &&& final(self).awaiting() == old(self).awaiting()
                },
            },
    {
        match response {
            DBResponse::NewLocalId { local_id } => {
                if self.awaiting_local_id {
                    self.awaiting_local_id = false;
                    Ok(DBRouted::NewLocalId(ResponseGetNewLocalId { db_response_id: local_id }))
                } else {
                    Err(UNREQUESTED_LOCAL_ID.to_string())
                }
            },
            DBResponse::ProductQuantityFromAllLocals {
                ss_id,
                worker_id,
                product_name,
                product_quantity_by_local_id,
            } => Ok(DBRouted::SolvedStock(HandleSolvedAskForStockProductFromDB {
                ss_id,
                worker_id,
                product_name,
                stock: product_quantity_by_local_id,
            })),
        }
    }
}

} // verus!
