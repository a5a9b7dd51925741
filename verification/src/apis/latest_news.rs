use vstd::prelude::*;

use crate::apis::fields::{
    build_query, count_set, distinct_names, Entry, Field, flag_entry, has_name, integer_entry,
    is_renamed_field, items_of, lemma_entries_of, lemma_marks, lemma_query_of, list_entry, query_of,
    set_entries, table_of, text_entry, text_of,
};
use crate::apis::flag::Flag;
use crate::newsdata_io::auth::Auth;
use crate::newsdata_io::requests::{request_of, Request};
use crate::query::{Pair, QueryMap};
use crate::text::{decimal, join_comma, texts};

verus! {

/// What a call of the latest news endpoint asks for. A field left `None` sends
/// nothing.
#[derive(Debug)]
pub struct GetLatestNewsParams {
    /// Identifiers of the articles wanted.
    pub id: Option<Vec<String>>,
    /// Words searched for anywhere in an article. The upstream API accepts at
    /// most one of `q`, `q_in_title` and `q_in_meta`.
    pub q: Option<String>,
    /// Words searched for in titles only.
    pub q_in_title: Option<String>,
    /// Words searched for in titles, URLs, meta keywords and meta descriptions.
    pub q_in_meta: Option<String>,
    /// How far back to search: hours as `6`, minutes as `15m`.
    pub timeframe: Option<String>,
    /// Country codes, such as `us`.
    pub country: Option<Vec<String>>,
    /// Categories wanted, such as `business`. The upstream API accepts at
    /// most one of `category` and `exclude_category`.
    pub category: Option<Vec<String>>,
    /// Categories left out.
    pub exclude_category: Option<Vec<String>>,
    /// Language codes, such as `en`.
    pub language: Option<String>,
    /// AI tags wanted.
    pub tag: Option<String>,
    /// Sentiment wanted: `positive`, `negative` or `neutral`.
    pub sentiment: Option<String>,
    /// Regions wanted.
    pub region: Option<String>,
    /// Names of the news domains wanted.
    pub domain: Option<String>,
    /// Domains left out.
    pub exclude_domain: Option<String>,
    /// URLs of the news domains wanted, such as `bbc.com`.
    pub domain_url: Option<String>,
    /// Fields of the response left out.
    pub exclude_field: Option<String>,
    /// Share of the news domains searched: `top`, `medium` or `low`.
    pub priority_domain: Option<String>,
    /// Time zone in which dates are given, such as `Europe/Berlin`.
    pub timezone: Option<String>,
    /// Whether only articles with their full text are wanted.
    pub full_content: Option<Flag>,
    /// Whether only articles with an image are wanted.
    pub image: Option<Flag>,
    /// Whether only articles with a video are wanted.
    pub video: Option<Flag>,
    /// Number of articles on a page.
    pub size: Option<i32>,
    /// Cursor of the next page, as the previous answer gave it.
    pub page: Option<String>,
}

impl GetLatestNewsParams {
    /// The field table: each field under the name that the upstream API
    /// gives it, with its encoding.
    pub open spec fn table(&self) -> Seq<Entry> {
        seq![
            list_entry("id"@, self.id),
            text_entry("q"@, self.q),
            text_entry("qInTitle"@, self.q_in_title),
            text_entry("qInMeta"@, self.q_in_meta),
            text_entry("timeframe"@, self.timeframe),
            list_entry("country"@, self.country),
            list_entry("category"@, self.category),
            list_entry("excludecategory"@, self.exclude_category),
            text_entry("language"@, self.language),
            text_entry("tag"@, self.tag),
            text_entry("sentiment"@, self.sentiment),
            text_entry("region"@, self.region),
            text_entry("domain"@, self.domain),
            text_entry("excludedomain"@, self.exclude_domain),
            text_entry("domainurl"@, self.domain_url),
            text_entry("excludefield"@, self.exclude_field),
            text_entry("prioritydomain"@, self.priority_domain),
            text_entry("timezone"@, self.timezone),
            flag_entry("full_content"@, self.full_content),
            flag_entry("image"@, self.image),
            flag_entry("video"@, self.video),
            integer_entry("size"@, self.size),
            text_entry("page"@, self.page),
        ]
    }

    /// The entries of the query map that these parameters stand for, in
    /// order: the lines of the field table whose field is set.
    pub open spec fn entries(&self) -> Seq<Pair> {
        set_entries(self.table())
    }

    /// The query map that these parameters stand for.
    pub open spec fn query(&self) -> Map<Seq<char>, Seq<char>> {
        query_of(self.table())
    }

    /// Both parameter objects say the same: each field is set in both or in
    /// neither, with the same text, the same flag or the same number.
    pub open spec fn same_values(&self, other: &Self) -> bool {
        &&& items_of(self.id) == items_of(other.id)
        &&& text_of(self.q) == text_of(other.q)
        &&& text_of(self.q_in_title) == text_of(other.q_in_title)
        &&& text_of(self.q_in_meta) == text_of(other.q_in_meta)
        &&& text_of(self.timeframe) == text_of(other.timeframe)
        &&& items_of(self.country) == items_of(other.country)
        &&& items_of(self.category) == items_of(other.category)
        &&& items_of(self.exclude_category) == items_of(other.exclude_category)
        &&& text_of(self.language) == text_of(other.language)
        &&& text_of(self.tag) == text_of(other.tag)
        &&& text_of(self.sentiment) == text_of(other.sentiment)
        &&& text_of(self.region) == text_of(other.region)
        &&& text_of(self.domain) == text_of(other.domain)
        &&& text_of(self.exclude_domain) == text_of(other.exclude_domain)
        &&& text_of(self.domain_url) == text_of(other.domain_url)
        &&& text_of(self.exclude_field) == text_of(other.exclude_field)
        &&& text_of(self.priority_domain) == text_of(other.priority_domain)
        &&& text_of(self.timezone) == text_of(other.timezone)
        &&& self.full_content == other.full_content
        &&& self.image == other.image
        &&& self.video == other.video
        &&& self.size == other.size
        &&& text_of(self.page) == text_of(other.page)
    }

    /// Every field unset.
    pub fn default() -> (params: Self)
        ensures
            params.id is None,
            params.q is None,
            params.q_in_title is None,
            params.q_in_meta is None,
            params.timeframe is None,
            params.country is None,
            params.category is None,
            params.exclude_category is None,
            params.language is None,
            params.tag is None,
            params.sentiment is None,
            params.region is None,
            params.domain is None,
            params.exclude_domain is None,
            params.domain_url is None,
            params.exclude_field is None,
            params.priority_domain is None,
            params.timezone is None,
            params.full_content is None,
            params.image is None,
            params.video is None,
            params.size is None,
            params.page is None,
    {
        GetLatestNewsParams {
            id: None,
            q: None,
            q_in_title: None,
            q_in_meta: None,
            timeframe: None,
            country: None,
            category: None,
            exclude_category: None,
            language: None,
            tag: None,
            sentiment: None,
            region: None,
            domain: None,
            exclude_domain: None,
            domain_url: None,
            exclude_field: None,
            priority_domain: None,
            timezone: None,
            full_content: None,
            image: None,
            video: None,
            size: None,
            page: None,
        }
    }

    /// The query map of these parameters: one entry for each field that is
    /// set, under its upstream name, in the order of the field table.
    pub fn query_params(&self) -> (query: QueryMap)
        ensures
            query@ == self.query(),
            query.pairs() == self.entries(),
            query@.len() == count_set(self.table()),
    {
        let mut fields: Vec<Field> = Vec::new();
        fields.push(Field::list("id", &self.id));
        fields.push(Field::text("q", &self.q));
        fields.push(Field::text("qInTitle", &self.q_in_title));
        fields.push(Field::text("qInMeta", &self.q_in_meta));
        fields.push(Field::text("timeframe", &self.timeframe));
        fields.push(Field::list("country", &self.country));
        fields.push(Field::list("category", &self.category));
        fields.push(Field::list("excludecategory", &self.exclude_category));
        fields.push(Field::text("language", &self.language));
        fields.push(Field::text("tag", &self.tag));
        fields.push(Field::text("sentiment", &self.sentiment));
        fields.push(Field::text("region", &self.region));
        fields.push(Field::text("domain", &self.domain));
        fields.push(Field::text("excludedomain", &self.exclude_domain));
        fields.push(Field::text("domainurl", &self.domain_url));
        fields.push(Field::text("excludefield", &self.exclude_field));
        fields.push(Field::text("prioritydomain", &self.priority_domain));
        fields.push(Field::text("timezone", &self.timezone));
        fields.push(Field::flag("full_content", &self.full_content));
        fields.push(Field::flag("image", &self.image));
        fields.push(Field::flag("video", &self.video));
        fields.push(Field::integer("size", &self.size));
        fields.push(Field::text("page", &self.page));
        proof {
            assert(table_of(fields@) =~= self.table());
            self.lemma_names_distinct();
            lemma_entries_of(self.table());
            lemma_query_of(self.table());
        }
        build_query(&fields)
    }

    /// The GET request of a call of the latest news endpoint with these
    /// parameters and the credential of `auth`.
    pub fn request(&self, auth: &Auth) -> (request: Request)
        ensures
            request@ == request_of(auth.key(), "latest"@, self.entries()),
    {
        Request::get(auth, "latest", Some(self.query_params()))
    }

    /// No upstream name stands on two lines of the field table.
    pub proof fn lemma_names_distinct(&self)
        ensures
            distinct_names(self.table()),
    {
        lemma_marks();
    }

    /// The query map holds one entry for each field that is set and no
    /// other: a field is a key, under its upstream name, exactly when it is
    /// set, and its value is then its encoding.
    pub proof fn lemma_query(&self)
        ensures
            self.query().len() == count_set(self.table()),
            forall|name: Seq<char>|
                self.query().contains_key(name) ==> has_name(self.table(), name),
            self.query().contains_key("id"@) <==> self.id is Some,
            self.query().contains_key("q"@) <==> self.q is Some,
            self.query().contains_key("qInTitle"@) <==> self.q_in_title is Some,
            self.query().contains_key("qInMeta"@) <==> self.q_in_meta is Some,
            self.query().contains_key("timeframe"@) <==> self.timeframe is Some,
            self.query().contains_key("country"@) <==> self.country is Some,
            self.query().contains_key("category"@) <==> self.category is Some,
            self.query().contains_key("excludecategory"@) <==> self.exclude_category is Some,
            self.query().contains_key("language"@) <==> self.language is Some,
            self.query().contains_key("tag"@) <==> self.tag is Some,
            self.query().contains_key("sentiment"@) <==> self.sentiment is Some,
            self.query().contains_key("region"@) <==> self.region is Some,
            self.query().contains_key("domain"@) <==> self.domain is Some,
            self.query().contains_key("excludedomain"@) <==> self.exclude_domain is Some,
            self.query().contains_key("domainurl"@) <==> self.domain_url is Some,
            self.query().contains_key("excludefield"@) <==> self.exclude_field is Some,
            self.query().contains_key("prioritydomain"@) <==> self.priority_domain is Some,
            self.query().contains_key("timezone"@) <==> self.timezone is Some,
            self.query().contains_key("full_content"@) <==> self.full_content is Some,
            self.query().contains_key("image"@) <==> self.image is Some,
            self.query().contains_key("video"@) <==> self.video is Some,
            self.query().contains_key("size"@) <==> self.size is Some,
            self.query().contains_key("page"@) <==> self.page is Some,
            self.id matches Some(items) ==> self.query()["id"@] == join_comma(texts(items@)),
            self.q matches Some(text) ==> self.query()["q"@] == text@,
            self.q_in_title matches Some(text) ==> self.query()["qInTitle"@] == text@,
            self.q_in_meta matches Some(text) ==> self.query()["qInMeta"@] == text@,
            self.timeframe matches Some(text) ==> self.query()["timeframe"@] == text@,
            self.country matches Some(items) ==> self.query()["country"@]
                == join_comma(texts(items@)),
            self.category matches Some(items) ==> self.query()["category"@]
                == join_comma(texts(items@)),
            self.exclude_category matches Some(items) ==> self.query()["excludecategory"@]
                == join_comma(texts(items@)),
            self.language matches Some(text) ==> self.query()["language"@] == text@,
            self.tag matches Some(text) ==> self.query()["tag"@] == text@,
            self.sentiment matches Some(text) ==> self.query()["sentiment"@] == text@,
            self.region matches Some(text) ==> self.query()["region"@] == text@,
            self.domain matches Some(text) ==> self.query()["domain"@] == text@,
            self.exclude_domain matches Some(text) ==> self.query()["excludedomain"@] == text@,
            self.domain_url matches Some(text) ==> self.query()["domainurl"@] == text@,
            self.exclude_field matches Some(text) ==> self.query()["excludefield"@] == text@,
            self.priority_domain matches Some(text) ==> self.query()["prioritydomain"@] == text@,
            self.timezone matches Some(text) ==> self.query()["timezone"@] == text@,
            self.full_content matches Some(flag) ==> self.query()["full_content"@] == flag.text(),
            self.image matches Some(flag) ==> self.query()["image"@] == flag.text(),
            self.video matches Some(flag) ==> self.query()["video"@] == flag.text(),
            self.size matches Some(n) ==> self.query()["size"@] == decimal(n as int),
            self.page matches Some(text) ==> self.query()["page"@] == text@,
    {
        self.lemma_names_distinct();
        lemma_query_of(self.table());
        let table = self.table();
        assert(table[0] == list_entry("id"@, self.id));
        assert(table[1] == text_entry("q"@, self.q));
        assert(table[2] == text_entry("qInTitle"@, self.q_in_title));
        assert(table[3] == text_entry("qInMeta"@, self.q_in_meta));
        assert(table[4] == text_entry("timeframe"@, self.timeframe));
        assert(table[5] == list_entry("country"@, self.country));
        assert(table[6] == list_entry("category"@, self.category));
        assert(table[7] == list_entry("excludecategory"@, self.exclude_category));
        assert(table[8] == text_entry("language"@, self.language));
        assert(table[9] == text_entry("tag"@, self.tag));
        assert(table[10] == text_entry("sentiment"@, self.sentiment));
        assert(table[11] == text_entry("region"@, self.region));
        assert(table[12] == text_entry("domain"@, self.domain));
        assert(table[13] == text_entry("excludedomain"@, self.exclude_domain));
        assert(table[14] == text_entry("domainurl"@, self.domain_url));
        assert(table[15] == text_entry("excludefield"@, self.exclude_field));
        assert(table[16] == text_entry("prioritydomain"@, self.priority_domain));
        assert(table[17] == text_entry("timezone"@, self.timezone));
        assert(table[18] == flag_entry("full_content"@, self.full_content));
        assert(table[19] == flag_entry("image"@, self.image));
        assert(table[20] == flag_entry("video"@, self.video));
        assert(table[21] == integer_entry("size"@, self.size));
        assert(table[22] == text_entry("page"@, self.page));
    }

    /// A flag is written `1` or `0` and nothing else.
    pub proof fn lemma_flags(&self)
        ensures
            self.query().contains_key("full_content"@) ==> self.query()["full_content"@] == "1"@
                || self.query()["full_content"@] == "0"@,
            self.query().contains_key("image"@) ==> self.query()["image"@] == "1"@
                || self.query()["image"@] == "0"@,
            self.query().contains_key("video"@) ==> self.query()["video"@] == "1"@
                || self.query()["video"@] == "0"@,
    {
        self.lemma_query();
    }

    /// A field that the upstream API names otherwise never appears in the
    /// query map under its own name.
    pub proof fn lemma_renamed_fields_absent(&self)
        ensures
            forall|name: Seq<char>| is_renamed_field(name) ==> !self.query().contains_key(name),
    {
        self.lemma_names_distinct();
        lemma_query_of(self.table());
        assert forall|name: Seq<char>| is_renamed_field(name) implies !has_name(
            self.table(),
            name,
        ) by {
            lemma_marks();
        }
    }

    /// Parameter objects that say the same give the same query map, entry by
    /// entry and in the same order.
    pub proof fn lemma_same_values_same_query(&self, other: &Self)
        requires
            self.same_values(other),
        ensures
            self.entries() == other.entries(),
            self.query() == other.query(),
    {
        assert(self.table() =~= other.table());
    }
}

impl Default for GetLatestNewsParams {
    fn default() -> (params: Self)
        ensures
            params.id is None,
            params.q is None,
            params.q_in_title is None,
            params.q_in_meta is None,
            params.timeframe is None,
            params.country is None,
            params.category is None,
            params.exclude_category is None,
            params.language is None,
            params.tag is None,
            params.sentiment is None,
            params.region is None,
            params.domain is None,
            params.exclude_domain is None,
            params.domain_url is None,
            params.exclude_field is None,
            params.priority_domain is None,
            params.timezone is None,
            params.full_content is None,
            params.image is None,
            params.video is None,
            params.size is None,
            params.page is None,
    {
        GetLatestNewsParams::default()
    }
}

} // verus!
