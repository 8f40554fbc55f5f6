//! AMQP-Seite des Publishers: die ausgehende Nachricht. Persistent,
//! content-type `application/json`, message-id = event_id.
use vstd::prelude::*;

use crate::config::AmqpConfig;
use crate::envelope::{is_uuid_v4_text, valid_timestamp, AviseData, Envelope};

verus! {

pub const EVENT_NAME: &'static str = "warehouse.schenk.avise-received";

pub const EVENT_VERSION: &'static str = "0.1.0";

pub const CONTENT_TYPE_JSON: &'static str = "application/json";

/// AMQP `delivery_mode` 2: persistente Nachricht.
pub const DELIVERY_MODE_PERSISTENT: u8 = 2;

/// Eine Avis-Zeile als AMQP-Nachricht: Ziel, Eigenschaften und Envelope.
#[derive(Debug, Clone)]
pub struct AmqpDelivery {
    pub exchange: String,
    pub routing_key: String,
    pub content_type: String,
    pub delivery_mode: u8,
    pub message_id: String,
    pub envelope: Envelope<AviseData>,
}

/// Baut die Nachricht für eine Avis-Zeile als
/// `warehouse.schenk.avise-received`-Event mit frischer Event-Id.
pub fn avise_delivery(cfg: &AmqpConfig, data: AviseData) -> (d: AmqpDelivery)
    ensures
        d.exchange@ == cfg.outbound_exchange@,
        d.routing_key@ == cfg.outbound_routing_key@,
        d.content_type@ == CONTENT_TYPE_JSON@,
        d.delivery_mode == DELIVERY_MODE_PERSISTENT,
        d.message_id@ == d.envelope.event_id@,
        is_uuid_v4_text(d.envelope.event_id@),
        valid_timestamp(d.envelope.occurred_at),
        d.envelope.carries(EVENT_NAME@, EVENT_VERSION@, cfg.producer_name@, cfg.customer_key@, data),
{
    let envelope = Envelope::wrap(
        String::from_str(EVENT_NAME),
        String::from_str(EVENT_VERSION),
        cfg.producer_name.clone(),
        cfg.customer_key.clone(),
        data,
    );
    AmqpDelivery {
        exchange: cfg.outbound_exchange.clone(),
        routing_key: cfg.outbound_routing_key.clone(),
        content_type: String::from_str(CONTENT_TYPE_JSON),
        delivery_mode: DELIVERY_MODE_PERSISTENT,
        message_id: envelope.event_id.clone(),
        envelope,
    }
}

} // verus!
