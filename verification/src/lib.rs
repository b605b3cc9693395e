pub mod chat_agent;
pub mod config_praser;
pub mod llm_server;
pub mod text;
pub mod topic_clasifier;
pub mod vector_space;
