//! A delivered message: its payload, headers and identity, the dedup key it
//! is tracked under, the resend-acknowledgement fallback, and the
//! bookkeeping of its terminal transitions.

use vstd::prelude::*;
use crate::models::request::PmAckMsg;
use crate::producer::composable_message::{header_lookup, lookup_header, pairs_view};
use crate::station::in_flight::InFlightSet;
use crate::text::{bytes_to_utf8, dec_digits, push_char, utf8_decoded};

verus! {

/// A message handed to the application, un-acknowledged until one of its
/// terminal transitions.
#[derive(Debug)]
pub struct MemphisMessage {
    pub subject: String,
    pub sequence: u64,
    pub payload: Vec<u8>,
    pub headers: Vec<(String, String)>,
    pub consumer_group: String,
    pub max_ack_time_ms: u64,
}

impl MemphisMessage {
    /// The pair this delivery is deduplicated under.
    pub open spec fn key(&self) -> (Seq<char>, u64) {
        (self.subject@, self.sequence)
    }

    /// The payload bytes.
    pub fn get_data(&self) -> (r: &Vec<u8>)
        ensures
            r@ == self.payload@,
    {
        &self.payload
    }

    /// The payload as text, when it is UTF-8.
    pub fn get_data_as_string(&self) -> (r: Option<String>)
        ensures
            match r {
                Option::Some(s) => utf8_decoded(self.payload@) == Option::Some(s@),
                Option::None => utf8_decoded(self.payload@) is None,
            },
    {
        bytes_to_utf8(&self.payload)
    }

    /// The headers the broker delivered.
    pub fn get_headers(&self) -> (r: &Vec<(String, String)>)
        ensures
            pairs_view(r@) == pairs_view(self.headers@),
    {
        &self.headers
    }

    /// The text key `<subject>-<sequence>` this delivery is known under.
    pub fn dedup_key(&self) -> (r: String)
        ensures
            r@ == self.subject@ + "-"@ + dec_digits(self.sequence as nat),
    {
        let mut s = self.subject.clone();
        push_char(&mut s, '-');
        crate::text::append_dec_u64(&mut s, self.sequence);
        proof {
            reveal_strlit("-");
            assert("-"@ =~= seq!['-']);
            assert(s@ =~= self.subject@ + "-"@ + dec_digits(self.sequence as nat));
        }
        s
    }

    /// The resend acknowledgement to fall back to when the normal
    /// acknowledgement fails: stated exactly when the broker stamped both
    /// poison-message headers on the delivery.
    pub fn ack_fallback(&self) -> (r: Option<PmAckMsg>)
        ensures
            match (
                header_lookup(pairs_view(self.headers@), "$memphis_pm_id"@),
                header_lookup(pairs_view(self.headers@), "$memphis_pm_cg_name"@),
            ) {
                (Option::Some(id), Option::Some(cg)) => match r {
                    Option::Some(m) => m.id@ == id && m.consumer_group_name@ == cg,
                    Option::None => false,
                },
                _ => r is None,
            },
    {
        let id = lookup_header(&self.headers, "$memphis_pm_id");
        let cg = lookup_header(&self.headers, "$memphis_pm_cg_name");
        match (id, cg) {
            (Option::Some(id), Option::Some(cg)) => Option::Some(
                PmAckMsg { id, consumer_group_name: cg },
            ),
            _ => Option::None,
        }
    }

    /// The bookkeeping of every terminal transition — acknowledge, delay,
    /// keep-alive disable, drop: the key leaves the station's in-flight set,
    /// so the broker may deliver it afresh.
    pub fn on_terminal(&self, set: &mut InFlightSet)
        requires
            old(set).wf(),
        ensures
            final(set).wf(),
            final(set).view() =~= old(set).view().remove(self.key()),
    {
        set.remove(&self.subject, self.sequence);
    }
}

} // verus!
