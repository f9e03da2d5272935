//! Remote search state: the typed query, the cursor over the results, and
//! the ticket discipline that keeps a superseded search from ever
//! delivering its results.
//!
//! The search itself runs outside, against the remote catalog. `search`
//! hands the caller a fresh ticket together with the query to run, and
//! makes that ticket the only running one — which cancels whatever search
//! ran before. Results come back through `apply_results` under the ticket
//! of the search that produced them; a stale ticket leaves the state
//! untouched, so late results of a cancelled search can never overwrite
//! newer ones.

use vstd::prelude::*;

use crate::selecthandler::SelectHandler;
use crate::song::Song;
use crate::text::{pop_char, push_char};

verus! {

pub struct SearchHandler {
    pub query: String,
    pub select_handler: SelectHandler<Song>,
    pub next_ticket: u64,
    pub running_ticket: Option<u64>,
}

/// Tickets already handed out stay below the counter, and the results
/// cursor is sound.
pub open spec fn sh_wf(h: SearchHandler) -> bool {
    &&& h.select_handler.wf()
    &&& match h.running_ticket {
        Option::Some(t) => t < h.next_ticket,
        Option::None => true,
    }
}

impl SearchHandler {
    pub fn new() -> (r: Self)
        ensures
            sh_wf(r),
            r.query@.len() == 0,
            r.select_handler.spec_items().len() == 0,
            r.running_ticket is None,
            r.next_ticket == 0,
    {
        SearchHandler {
            query: String::new(),
            select_handler: SelectHandler::new(),
            next_ticket: 0,
            running_ticket: None,
        }
    }

    /// Appends one typed character to the query.
    pub fn add_char_to_query(&mut self, c: char)
        ensures
            final(self).query@ == old(self).query@.push(c),
            final(self).select_handler == old(self).select_handler,
            final(self).next_ticket == old(self).next_ticket,
            final(self).running_ticket == old(self).running_ticket,
    {
        push_char(&mut self.query, c);
    }

    /// Removes the last typed character; a no-op on an empty query.
    pub fn remove_last_char(&mut self)
        ensures
            final(self).query@ == if old(self).query@.len() > 0 {
                old(self).query@.drop_last()
            } else {
                old(self).query@
            },
            final(self).select_handler == old(self).select_handler,
            final(self).next_ticket == old(self).next_ticket,
            final(self).running_ticket == old(self).running_ticket,
    {
        pop_char(&mut self.query);
    }

    pub fn get_query(&self) -> (r: &str)
        ensures
            r@ == self.query@,
    {
        self.query.as_str()
    }

    /// Starts a search for the current query: hands back a fresh ticket and
    /// the query to run, and makes that ticket the only one whose results
    /// will be accepted — whatever search ran before is thereby cancelled.
    pub fn search(&mut self) -> (r: (u64, String))
        requires
            sh_wf(*old(self)),
            old(self).next_ticket < u64::MAX,
        ensures
            sh_wf(*final(self)),
            r.0 == old(self).next_ticket,
            r.1@ == old(self).query@,
            final(self).query@ == old(self).query@,
            final(self).select_handler == old(self).select_handler,
            final(self).running_ticket == Option::Some(r.0),
            final(self).next_ticket == old(self).next_ticket + 1,
    {
        let ticket = self.next_ticket;
        self.next_ticket = self.next_ticket + 1;
        self.running_ticket = Some(ticket);
        (ticket, self.query.clone())
    }

    /// Delivers the results of the search that `ticket` was handed out for.
    /// Only the running ticket may fill the results cursor; a stale one —
    /// a search superseded by a newer `search` call — changes nothing.
    pub fn apply_results(&mut self, ticket: u64, songs: Vec<Song>)
        requires
            sh_wf(*old(self)),
        ensures
            sh_wf(*final(self)),
            old(self).running_ticket == Option::Some(ticket) ==> {
                &&& final(self).select_handler.spec_items() == songs@
                &&& final(self).select_handler.spec_selected() == if songs@.len() > 0 {
                    Option::Some(0usize)
                } else {
                    Option::None::<usize>
                }
                &&& final(self).running_ticket is None
                &&& final(self).query@ == old(self).query@
                &&& final(self).next_ticket == old(self).next_ticket
            },
            old(self).running_ticket != Option::Some(ticket) ==> *final(self) == *old(self),
    {
        let accept = match self.running_ticket {
            Some(t) => t == ticket,
            None => false,
        };
        if accept {
            self.select_handler.set_items(songs);
            self.running_ticket = None;
        }
    }
}

} // verus!
