//! The reserved control-plane subjects, wire header names, subscription
//! prefixes and notification kinds, each pinned to its exact text.

use vstd::prelude::*;

verus! {

/// A reserved subject the control plane is spoken over.
#[derive(Clone, Copy, Debug, PartialEq, Eq, Structural)]
pub enum MemphisSpecialStation {
    ProducerCreations,
    ConsumerCreations,
    StationCreations,
    ProducerDestructions,
    ConsumerDestructions,
    StationDestructions,
    SchemaAttachments,
    SchemaDetachments,
    Notifications,
    MemphisSchemaverseDls,
    PmAcks,
}

impl MemphisSpecialStation {
    /// The exact subject text.
    pub open spec fn text(self) -> Seq<char> {
        match self {
            MemphisSpecialStation::ProducerCreations => "$memphis_producer_creations"@,
            MemphisSpecialStation::ConsumerCreations => "$memphis_consumer_creations"@,
            MemphisSpecialStation::StationCreations => "$memphis_station_creations"@,
            MemphisSpecialStation::ProducerDestructions => "$memphis_producer_destructions"@,
            MemphisSpecialStation::ConsumerDestructions => "$memphis_consumer_destructions"@,
            MemphisSpecialStation::StationDestructions => "$memphis_station_destructions"@,
            MemphisSpecialStation::SchemaAttachments => "$memphis_schema_attachments"@,
            MemphisSpecialStation::SchemaDetachments => "$memphis_schema_detachments"@,
            MemphisSpecialStation::Notifications => "$memphis_notifications"@,
            MemphisSpecialStation::MemphisSchemaverseDls => "$memphis_schemaverse_dls"@,
            MemphisSpecialStation::PmAcks => "$memphis_pm_acks"@,
        }
    }

    /// The subject as a string.
    pub fn to_string(&self) -> (r: String)
        ensures
            r@ == self.text(),
    {
        let s: &str = match self {
            MemphisSpecialStation::ProducerCreations => "$memphis_producer_creations",
            MemphisSpecialStation::ConsumerCreations => "$memphis_consumer_creations",
            MemphisSpecialStation::StationCreations => "$memphis_station_creations",
            MemphisSpecialStation::ProducerDestructions => "$memphis_producer_destructions",
            MemphisSpecialStation::ConsumerDestructions => "$memphis_consumer_destructions",
            MemphisSpecialStation::StationDestructions => "$memphis_station_destructions",
            MemphisSpecialStation::SchemaAttachments => "$memphis_schema_attachments",
            MemphisSpecialStation::SchemaDetachments => "$memphis_schema_detachments",
            MemphisSpecialStation::Notifications => "$memphis_notifications",
            MemphisSpecialStation::MemphisSchemaverseDls => "$memphis_schemaverse_dls",
            MemphisSpecialStation::PmAcks => "$memphis_pm_acks",
        };
        s.to_owned()
    }
}

/// A header this client stamps on or reads from a message.
#[derive(Clone, Copy, Debug, PartialEq, Eq, Structural)]
pub enum MemphisHeaders {
    MessageId,
    MemphisProducedBy,
    MemphisConnectionId,
}

impl MemphisHeaders {
    /// The exact header name.
    pub open spec fn text(self) -> Seq<char> {
        match self {
            MemphisHeaders::MessageId => "msg-id"@,
            MemphisHeaders::MemphisProducedBy => "$memphis_producedBy"@,
            MemphisHeaders::MemphisConnectionId => "$memphis_connectionId"@,
        }
    }

    /// The header name as written on the wire.
    pub fn as_str(&self) -> (r: &'static str)
        ensures
            r@ == self.text(),
    {
        match self {
            MemphisHeaders::MessageId => "msg-id",
            MemphisHeaders::MemphisProducedBy => "$memphis_producedBy",
            MemphisHeaders::MemphisConnectionId => "$memphis_connectionId",
        }
    }
}

/// A subject prefix this client subscribes under.
#[derive(Clone, Copy, Debug, PartialEq, Eq, Structural)]
pub enum MemphisSubscriptions {
    DlsPrefix,
    SchemaUpdatesPrefix,
}

impl MemphisSubscriptions {
    /// The exact prefix text.
    pub open spec fn text(self) -> Seq<char> {
        match self {
            MemphisSubscriptions::DlsPrefix => "$memphis_dls_"@,
            MemphisSubscriptions::SchemaUpdatesPrefix => "$memphis_schema_updates_"@,
        }
    }

    /// The prefix as a string.
    pub fn to_string(&self) -> (r: String)
        ensures
            r@ == self.text(),
    {
        let s: &str = match self {
            MemphisSubscriptions::DlsPrefix => "$memphis_dls_",
            MemphisSubscriptions::SchemaUpdatesPrefix => "$memphis_schema_updates_",
        };
        s.to_owned()
    }
}

/// A notification kind reported to the broker.
#[derive(Clone, Copy, Debug, PartialEq, Eq, Structural)]
pub enum MemphisNotificationType {
    SchemaValidationFailAlert,
}

impl MemphisNotificationType {
    /// The exact kind tag.
    pub open spec fn text(self) -> Seq<char> {
        match self {
            MemphisNotificationType::SchemaValidationFailAlert => "schema_validation_fail_alert"@,
        }
    }

    /// The kind tag as a string.
    pub fn to_string(&self) -> (r: String)
        ensures
            r@ == self.text(),
    {
        let s: &str = match self {
            MemphisNotificationType::SchemaValidationFailAlert => "schema_validation_fail_alert",
        };
        s.to_owned()
    }
}

} // verus!
