//! The configuration shape the process is started with. Reading and parsing
//! the file happen at the edge; the values land here as plain fields.

use vstd::prelude::*;

verus! {

/// The whole configuration file.
#[derive(Debug)]
pub struct Config {
    pub servers: Servers,
    pub embedding: Embedding,
}

/// Where the collaborating services are reached.
#[derive(Debug)]
pub struct Servers {
    pub ollama_api_server_url: String,
    pub api_key: String,
    pub model_name: String,
    pub vector_store_db_url: String,
}

/// What dataset ingestion loads, and whether it runs at startup.
#[derive(Debug)]
pub struct Embedding {
    pub movies_data_path: String,
    pub number_of_movies_data: Option<u32>,
    pub books_data_path: String,
    pub number_of_books_data: Option<u32>,
    pub vector_dimensions: u16,
    pub pre_delete_embeddings: bool,
    pub create_embedding: bool,
}

} // verus!
