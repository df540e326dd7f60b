//! The dead-letter request a producer issues when schema validation fails
//! and the station routes such messages to the dead-letter subject.

use vstd::prelude::*;
use crate::json_text::{append_json_opt_str, append_json_str, json_opt_str, json_str};
use crate::producer::composable_message::{pairs_view, ComposableMessage};
use crate::text::{bytes_to_hex, hex_digits};

verus! {

/// One header as a JSON object member.
pub open spec fn header_pair_json(p: (Seq<char>, Seq<char>)) -> Seq<char> {
    json_str(p.0) + ":"@ + json_str(p.1)
}

/// The members of the headers object, comma separated, in order.
pub open spec fn headers_items_json(hs: Seq<(Seq<char>, Seq<char>)>) -> Seq<char>
    decreases hs.len(),
{
    if hs.len() == 0 {
        Seq::empty()
    } else if hs.len() == 1 {
        header_pair_json(hs[0])
    } else {
        headers_items_json(hs.drop_last()) + ","@ + header_pair_json(hs.last())
    }
}

/// The headers as a JSON object.
pub open spec fn headers_json(hs: Seq<(Seq<char>, Seq<char>)>) -> Seq<char> {
    "{"@ + headers_items_json(hs) + "}"@
}

/// Appends the headers object to `out`.
pub fn append_headers_json(out: &mut String, hs: &Vec<(String, String)>)
    ensures
        final(out)@ == old(out)@ + headers_json(pairs_view(hs@)),
{
    out.append("{");
    let mut i: usize = 0;
    proof {
        assert(pairs_view(hs@).take(0) =~= Seq::<(Seq<char>, Seq<char>)>::empty());
    }
    while i < hs.len()
        invariant
            i <= hs@.len(),
            out@ == old(out)@ + "{"@ + headers_items_json(pairs_view(hs@).take(i as int)),
        decreases hs@.len() - i,
    {
        if i > 0 {
            out.append(",");
        }
        append_json_str(out, hs[i].0.as_str());
        out.append(":");
        append_json_str(out, hs[i].1.as_str());
        proof {
            let v = pairs_view(hs@);
            assert(v.take(i + 1).drop_last() =~= v.take(i as int));
            assert(v.take(i + 1).last() == v[i as int]);
            if i == 0 {
                assert(out@ =~= old(out)@ + "{"@ + headers_items_json(v.take(1)));
            } else {
                assert(out@ =~= old(out)@ + "{"@ + (headers_items_json(v.take(i as int)) + ","@
                    + header_pair_json(v[i as int])));
            }
        }
        i = i + 1;
    }
    out.append("}");
    proof {
        assert(pairs_view(hs@).take(hs@.len() as int) =~= pairs_view(hs@));
        assert(out@ =~= old(out)@ + headers_json(pairs_view(hs@)));
    }
}

/// Who produced the rejected message.
#[derive(Debug)]
pub struct DlsMessageProducer {
    pub name: String,
    pub connection_id: String,
}

impl DlsMessageProducer {
    /// The exact wire form.
    pub open spec fn json(&self) -> Seq<char> {
        "{\"name\":"@ + json_str(self.name@) + ",\"connection_id\":"@ + json_str(
            self.connection_id@,
        ) + "}"@
    }

    pub fn encode(&self) -> (s: String)
        ensures
            s@ == self.json(),
    {
        let mut s = String::new();
        s.append("{\"name\":");
        append_json_str(&mut s, self.name.as_str());
        s.append(",\"connection_id\":");
        append_json_str(&mut s, self.connection_id.as_str());
        s.append("}");
        proof {
            assert(s@ =~= self.json());
        }
        s
    }
}

/// A schema-rejected message as handed to the dead-letter subject: its
/// payload travels as lowercase hex.
#[derive(Debug)]
pub struct DlsMessage {
    pub station_name: String,
    pub producer: DlsMessageProducer,
    pub message: ComposableMessage,
    pub validation_error: String,
}

impl DlsMessage {
    /// The exact wire form.
    pub open spec fn json(&self) -> Seq<char> {
        "{\"station_name\":"@ + json_str(self.station_name@) + ",\"producer\":"@
            + self.producer.json() + ",\"message\":{\"headers\":"@ + headers_json(
            self.message.headers_view(),
        ) + ",\"payload\":\""@ + hex_digits(self.message.payload@) + "\",\"msg_id\":"@
            + json_opt_str(self.message.msg_id_view()) + "},\"validation_error\":"@ + json_str(
            self.validation_error@,
        ) + "}"@
    }

    pub fn encode(&self) -> (s: String)
        ensures
            s@ == self.json(),
    {
        let mut s = String::new();
        s.append("{\"station_name\":");
        append_json_str(&mut s, self.station_name.as_str());
        s.append(",\"producer\":");
        let producer = self.producer.encode();
        s.append(producer.as_str());
        s.append(",\"message\":{\"headers\":");
        append_headers_json(&mut s, &self.message.headers);
        s.append(",\"payload\":\"");
        let hex = bytes_to_hex(&self.message.payload);
        s.append(hex.as_str());
        s.append("\",\"msg_id\":");
        append_json_opt_str(&mut s, &self.message.msg_id);
        s.append("},\"validation_error\":");
        append_json_str(&mut s, self.validation_error.as_str());
        s.append("}");
        proof {
            assert(s@ =~= self.json());
        }
        s
    }
}

} // verus!
