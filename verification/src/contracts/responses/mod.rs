pub mod volume_response;
