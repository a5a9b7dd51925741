use vstd::prelude::*;

use crate::apis::fields::{
    build_query, count_set, distinct_names, Entry, Field, has_name, is_renamed_field, items_of,
    lemma_entries_of, lemma_marks, lemma_query_of, list_entry, query_of, set_entries, table_of,
    text_entry, text_of,
};
use crate::newsdata_io::auth::Auth;
use crate::newsdata_io::requests::{request_of, Request};
use crate::query::{Pair, QueryMap};
use crate::text::{join_comma, texts};

verus! {

/// What a call of the news sources endpoint asks for. A field left `None` sends
/// nothing.
#[derive(Debug)]
pub struct GetNewsSourcesParams {
    /// Identifiers of the sources wanted.
    pub id: Option<Vec<String>>,
    /// Country codes, such as `us`.
    pub country: Option<Vec<String>>,
    /// Categories wanted, such as `business`. The upstream API accepts at
    /// most one of `category` and `exclude_category`.
    pub category: Option<Vec<String>>,
    /// Categories left out.
    pub exclude_category: Option<Vec<String>>,
    /// Language codes, such as `en`.
    pub language: Option<String>,
    /// Share of the news domains searched: `top`, `medium` or `low`.
    pub priority_domain: Option<String>,
}

impl GetNewsSourcesParams {
    /// The field table: each field under the name that the upstream API
    /// gives it, with its encoding.
    pub open spec fn table(&self) -> Seq<Entry> {
        seq![
            list_entry("id"@, self.id),
            list_entry("country"@, self.country),
            list_entry("category"@, self.category),
            list_entry("excludecategory"@, self.exclude_category),
            text_entry("language"@, self.language),
            text_entry("prioritydomain"@, self.priority_domain),
        ]
    }

    /// The entries of the query map that these parameters stand for, in
    /// order: the lines of the field table whose field is set.
    pub open spec fn entries(&self) -> Seq<Pair> {
        set_entries(self.table())
    }

    /// The query map that these parameters stand for.
    pub open spec fn query(&self) -> Map<Seq<char>, Seq<char>> {
        query_of(self.table())
    }

    /// Both parameter objects say the same: each field is set in both or in
    /// neither, with the same text, the same flag or the same number.
    pub open spec fn same_values(&self, other: &Self) -> bool {
        &&& items_of(self.id) == items_of(other.id)
        &&& items_of(self.country) == items_of(other.country)
        &&& items_of(self.category) == items_of(other.category)
        &&& items_of(self.exclude_category) == items_of(other.exclude_category)
        &&& text_of(self.language) == text_of(other.language)
        &&& text_of(self.priority_domain) == text_of(other.priority_domain)
    }

    /// Every field unset.
    pub fn default() -> (params: Self)
        ensures
            params.id is None,
            params.country is None,
            params.category is None,
            params.exclude_category is None,
            params.language is None,
            params.priority_domain is None,
    {
        GetNewsSourcesParams {
            id: None,
            country: None,
            category: None,
            exclude_category: None,
            language: None,
            priority_domain: None,
        }
    }

    /// The query map of these parameters: one entry for each field that is
    /// set, under its upstream name, in the order of the field table.
    pub fn query_params(&self) -> (query: QueryMap)
        ensures
            query@ == self.query(),
            query.pairs() == self.entries(),
            query@.len() == count_set(self.table()),
    {
        let mut fields: Vec<Field> = Vec::new();
        fields.push(Field::list("id", &self.id));
        fields.push(Field::list("country", &self.country));
        fields.push(Field::list("category", &self.category));
        fields.push(Field::list("excludecategory", &self.exclude_category));
        fields.push(Field::text("language", &self.language));
        fields.push(Field::text("prioritydomain", &self.priority_domain));
        proof {
            assert(table_of(fields@) =~= self.table());
            self.lemma_names_distinct();
            lemma_entries_of(self.table());
            lemma_query_of(self.table());
        }
        build_query(&fields)
    }

    /// The GET request of a call of the news sources endpoint with these
    /// parameters and the credential of `auth`.
    pub fn request(&self, auth: &Auth) -> (request: Request)
        ensures
            request@ == request_of(auth.key(), "sources"@, self.entries()),
    {
        Request::get(auth, "sources", Some(self.query_params()))
    }

    /// No upstream name stands on two lines of the field table.
    pub proof fn lemma_names_distinct(&self)
        ensures
            distinct_names(self.table()),
    {
        lemma_marks();
    }

    /// The query map holds one entry for each field that is set and no
    /// other: a field is a key, under its upstream name, exactly when it is
    /// set, and its value is then its encoding.
    pub proof fn lemma_query(&self)
        ensures
            self.query().len() == count_set(self.table()),
            forall|name: Seq<char>|
                self.query().contains_key(name) ==> has_name(self.table(), name),
            self.query().contains_key("id"@) <==> self.id is Some,
            self.query().contains_key("country"@) <==> self.country is Some,
            self.query().contains_key("category"@) <==> self.category is Some,
            self.query().contains_key("excludecategory"@) <==> self.exclude_category is Some,
            self.query().contains_key("language"@) <==> self.language is Some,
            self.query().contains_key("prioritydomain"@) <==> self.priority_domain is Some,
            self.id matches Some(items) ==> self.query()["id"@] == join_comma(texts(items@)),
            self.country matches Some(items) ==> self.query()["country"@]
                == join_comma(texts(items@)),
            self.category matches Some(items) ==> self.query()["category"@]
                == join_comma(texts(items@)),
            self.exclude_category matches Some(items) ==> self.query()["excludecategory"@]
                == join_comma(texts(items@)),
            self.language matches Some(text) ==> self.query()["language"@] == text@,
            self.priority_domain matches Some(text) ==> self.query()["prioritydomain"@] == text@,
    {
        self.lemma_names_distinct();
        lemma_query_of(self.table());
        let table = self.table();
        assert(table[0] == list_entry("id"@, self.id));
        assert(table[1] == list_entry("country"@, self.country));
        assert(table[2] == list_entry("category"@, self.category));
        assert(table[3] == list_entry("excludecategory"@, self.exclude_category));
        assert(table[4] == text_entry("language"@, self.language));
        assert(table[5] == text_entry("prioritydomain"@, self.priority_domain));
    }

    /// A field that the upstream API names otherwise never appears in the
    /// query map under its own name.
    pub proof fn lemma_renamed_fields_absent(&self)
        ensures
            forall|name: Seq<char>| is_renamed_field(name) ==> !self.query().contains_key(name),
    {
        self.lemma_names_distinct();
        lemma_query_of(self.table());
        assert forall|name: Seq<char>| is_renamed_field(name) implies !has_name(
            self.table(),
            name,
        ) by {
            lemma_marks();
        }
    }

    /// Parameter objects that say the same give the same query map, entry by
    /// entry and in the same order.
    pub proof fn lemma_same_values_same_query(&self, other: &Self)
        requires
            self.same_values(other),
        ensures
            self.entries() == other.entries(),
            self.query() == other.query(),
    {
        assert(self.table() =~= other.table());
    }
}

impl Default for GetNewsSourcesParams {
    fn default() -> (params: Self)
        ensures
            params.id is None,
            params.country is None,
            params.category is None,
            params.exclude_category is None,
            params.language is None,
            params.priority_domain is None,
    {
        GetNewsSourcesParams::default()
    }
}

} // verus!
