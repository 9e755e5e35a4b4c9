pub mod list_queues_response;

pub use self::list_queues_response::{ListQueuesDocument, ListQueuesResponse, Queue, Queues};
