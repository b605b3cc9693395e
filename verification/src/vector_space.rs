//! The vector-store side of the pipeline: the handles that name an embedding
//! backend and a document collection, the retrieved-document shape, and the
//! shaping of raw records into page content for ingestion.

use vstd::prelude::*;
use crate::text::join_spaced;
use crate::text::join_with_space;

verus! {

/// Names the embedding backend: which model embeds, and where it is served.
#[derive(Debug)]
pub struct EmbeddingManager<'a> {
    pub model_name: &'a str,
    pub api_base_url: String,
}

impl<'a> EmbeddingManager<'a> {
    pub fn new(model_name: &'a str, api_base_url: String) -> (m: Self)
        ensures
            m.model_name@ == model_name@,
            m.api_base_url@ == api_base_url@,
    {
        Self { model_name, api_base_url }
    }
}

/// Names one collection of one vector store, bound to an embedding backend.
#[derive(Debug)]
pub struct VectorSpaceManager<'a> {
    pub embedding_manager: EmbeddingManager<'a>,
    pub db_url: String,
    pub collection_name: String,
    pub pre_delete_collection: bool,
}

impl<'a> VectorSpaceManager<'a> {
    pub fn new(
        embedding_manager: EmbeddingManager<'a>,
        db_url: String,
        collection_name: String,
        pre_delete_collection: bool,
    ) -> (m: Self)
        ensures
            m.embedding_manager == embedding_manager,
            m.db_url@ == db_url@,
            m.collection_name@ == collection_name@,
            m.pre_delete_collection == pre_delete_collection,
    {
        Self { embedding_manager, db_url, collection_name, pre_delete_collection }
    }
}

/// A document as retrieval returns it: its text, and the record fields it
/// came from, held as plain key-value pairs.
#[derive(Debug)]
pub struct Document {
    pub page_content: String,
    pub metadata: Vec<(String, String)>,
}

impl Document {
    pub fn new(page_content: String) -> (d: Self)
        ensures
            d.page_content@ == page_content@,
            d.metadata@.len() == 0,
    {
        Self { page_content, metadata: Vec::new() }
    }

    pub fn with_metadata(self, metadata: Vec<(String, String)>) -> (d: Self)
        ensures
            d.page_content@ == self.page_content@,
            d.metadata == metadata,
    {
        Self { page_content: self.page_content, metadata }
    }
}

/// A book record, holding exactly the fields that its page content is built
/// from.
#[derive(Debug)]
pub struct BookRecord {
    pub title: String,
    pub author: String,
    pub publication_date: String,
    pub description: String,
    pub genres: Vec<String>,
}

/// A movie record, holding exactly the fields that its page content is built
/// from.
#[derive(Debug)]
pub struct MovieRecord {
    pub title: String,
    pub release_date: String,
    pub summary: String,
    pub movie_genres_list: Vec<String>,
    pub movie_actor_list: Vec<String>,
}

#[derive(Debug)]
pub struct BookDataLoader;

#[derive(Debug)]
pub struct MovieDataLoder;

/// The page content of a book record: its fields, space-separated, with the
/// genres joined by single spaces at the end.
pub open spec fn spec_book_page_content(r: BookRecord) -> Seq<char> {
    r.title@ + seq![' '] + r.author@ + seq![' '] + r.publication_date@ + seq![' ']
        + r.description@ + seq![' '] + join_spaced(r.genres.deep_view())
}

/// The page content of a movie record: its fields, space-separated, with the
/// genre and actor lists each joined by single spaces.
pub open spec fn spec_movie_page_content(r: MovieRecord) -> Seq<char> {
    r.title@ + seq![' '] + r.release_date@ + seq![' '] + r.summary@ + seq![' '] + join_spaced(
        r.movie_genres_list.deep_view(),
    ) + seq![' '] + join_spaced(r.movie_actor_list.deep_view())
}

fn append_space(s: &mut String)
    ensures
        final(s)@ == old(s)@ + seq![' '],
{
    s.append(" ");
    proof {
        reveal_strlit(" ");
        assert(" "@ =~= seq![' ']);
    }
}

impl BookDataLoader {
    /// Flattens a book record into the text that is embedded and retrieved.
    pub fn get_page_content(&self, item: &BookRecord) -> (s: String)
        ensures
            s@ == spec_book_page_content(*item),
    {
        let mut s = item.title.clone();
        append_space(&mut s);
        s.append(item.author.as_str());
        append_space(&mut s);
        s.append(item.publication_date.as_str());
        append_space(&mut s);
        s.append(item.description.as_str());
        append_space(&mut s);
        s.append(join_with_space(&item.genres).as_str());
        s
    }
}

impl MovieDataLoder {
    /// Flattens a movie record into the text that is embedded and retrieved.
    pub fn get_page_content(&self, item: &MovieRecord) -> (s: String)
        ensures
            s@ == spec_movie_page_content(*item),
    {
        let mut s = item.title.clone();
        append_space(&mut s);
        s.append(item.release_date.as_str());
        append_space(&mut s);
        s.append(item.summary.as_str());
        append_space(&mut s);
        s.append(join_with_space(&item.movie_genres_list).as_str());
        append_space(&mut s);
        s.append(join_with_space(&item.movie_actor_list).as_str());
        s
    }
}

/// How many leading records ingestion keeps: all of them without a limit, and
/// one more than the limit with one, since the cut is taken after the entry at
/// the limit's index has been added.
pub open spec fn spec_ingest_count(n: nat, length: Option<u32>) -> nat {
    match length {
        Option::None => n,
        Option::Some(l) => if n <= l + 1 {
            n
        } else {
            (l + 1) as nat
        },
    }
}

/// Builds one document per kept content string, in order, stopping after the
/// entry at the limit's index as ingestion does.
pub fn documents_from_contents(contents: Vec<String>, length: Option<u32>) -> (docs: Vec<
    Document,
>)
    ensures
        docs@.len() == spec_ingest_count(contents@.len() as nat, length),
        forall|i: int|
            0 <= i < docs@.len() ==> (#[trigger] docs@[i]).page_content@
                == contents.deep_view()[i] && docs@[i].metadata@.len() == 0,
{
    let ghost all = contents.deep_view();
    let mut docs: Vec<Document> = Vec::new();
    let mut i: usize = 0;
    while i < contents.len()
        invariant
            i <= contents.len(),
            all == contents.deep_view(),
            all.len() == contents.len(),
            docs@.len() == i,
            match length {
                Option::None => true,
                Option::Some(l) => i <= l,
            },
            forall|j: int|
                0 <= j < docs@.len() ==> (#[trigger] docs@[j]).page_content@ == all[j]
                    && docs@[j].metadata@.len() == 0,
        decreases contents.len() - i,
    {
        let content = contents[i].clone();
        docs.push(Document::new(content));
        let stop = match length {
            Option::Some(l) => i == l as usize,
            Option::None => false,
        };
        i = i + 1;
        if stop {
            return docs;
        }
    }
    docs
}

} // verus!
