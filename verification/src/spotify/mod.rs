pub mod spotify_event;
pub mod spotify_event_producer;
