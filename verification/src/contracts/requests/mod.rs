pub mod event_request;
