use rag_chatbot::vector_space::documents_from_contents;
use rag_chatbot::vector_space::BookDataLoader;
use rag_chatbot::vector_space::BookRecord;
use rag_chatbot::vector_space::Document;
use rag_chatbot::vector_space::EmbeddingManager;
use rag_chatbot::vector_space::MovieDataLoder;
use rag_chatbot::vector_space::MovieRecord;
use rag_chatbot::vector_space::VectorSpaceManager;

#[test]
fn book_page_content_joins_the_fields_with_spaces() {
    let record = BookRecord {
        title: "Dune".to_string(),
        author: "Frank Herbert".to_string(),
        publication_date: "1965".to_string(),
        description: "A desert planet.".to_string(),
        genres: vec!["\"Science Fiction\"".to_string(), "\"Classic\"".to_string()],
    };
    let content = BookDataLoader.get_page_content(&record);
    assert_eq!(
        content,
        "Dune Frank Herbert 1965 A desert planet. \"Science Fiction\" \"Classic\""
    );
}

#[test]
fn movie_page_content_joins_the_fields_and_both_lists() {
    let record = MovieRecord {
        title: "Arrival".to_string(),
        release_date: "2016".to_string(),
        summary: "Aliens land.".to_string(),
        movie_genres_list: vec!["\"Sci-Fi\"".to_string()],
        movie_actor_list: vec!["\"Amy Adams\"".to_string(), "\"Jeremy Renner\"".to_string()],
    };
    let content = MovieDataLoder.get_page_content(&record);
    assert_eq!(
        content,
        "Arrival 2016 Aliens land. \"Sci-Fi\" \"Amy Adams\" \"Jeremy Renner\""
    );
}

#[test]
fn ingestion_keeps_one_more_record_than_the_limit() {
    let contents: Vec<String> =
        ["a", "b", "c", "d", "e"].iter().map(|s| s.to_string()).collect();
    let capped = documents_from_contents(contents.clone(), Some(2));
    assert_eq!(capped.len(), 3);
    assert_eq!(capped[0].page_content, "a");
    assert_eq!(capped[2].page_content, "c");
    let all = documents_from_contents(contents.clone(), None);
    assert_eq!(all.len(), 5);
    let short = documents_from_contents(contents, Some(10));
    assert_eq!(short.len(), 5);
    let zero = documents_from_contents(vec!["x".to_string(), "y".to_string()], Some(0));
    assert_eq!(zero.len(), 1);
}

#[test]
fn documents_carry_content_and_metadata() {
    let d = Document::new("text".to_string());
    assert_eq!(d.page_content, "text");
    assert!(d.metadata.is_empty());
    let d = d.with_metadata(vec![("title".to_string(), "Dune".to_string())]);
    assert_eq!(d.page_content, "text");
    assert_eq!(d.metadata[0].0, "title");
}

#[test]
fn managers_hold_their_configuration() {
    let em = EmbeddingManager::new("tinyllama:chat", "http://localhost:11434".to_string());
    assert_eq!(em.model_name, "tinyllama:chat");
    assert_eq!(em.api_base_url, "http://localhost:11434");
    let vm = VectorSpaceManager::new(
        em,
        "postgres://localhost/vectors".to_string(),
        "books_collection".to_string(),
        true,
    );
    assert_eq!(vm.db_url, "postgres://localhost/vectors");
    assert_eq!(vm.collection_name, "books_collection");
    assert!(vm.pre_delete_collection);
}
