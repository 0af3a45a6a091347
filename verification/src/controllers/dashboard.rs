//! The city summary: how often each requested city occurs in the indexed
//! articles of the last hundred weeks.

use vstd::prelude::*;
use crate::http::HttpStatus;
use crate::json::{array_of_texts, object_of_one, object_of_three, object_of_two, spec_path, JsonValue};
use crate::text::{join, same_text, spec_split, spec_trim, split, trim};

verus! {

/// The answer of the summary endpoint.
#[derive(Debug, Clone, PartialEq, Eq)]
pub struct DashboardCityCountResponse {
    pub success: bool,
    pub data: Option<DashboardCityCountData>,
    pub errors: Option<Vec<DashboardError>>,
}

/// The count of one city.
#[derive(Debug, Clone, PartialEq, Eq)]
pub struct CityCount {
    pub city: String,
    pub count: i64,
}

/// The counts of the requested cities, each city once.
#[derive(Debug, Clone, PartialEq, Eq)]
pub struct DashboardCityCountData {
    pub cities: Vec<CityCount>,
}

/// One error of the summary endpoint.
#[derive(Debug, Clone, PartialEq, Eq)]
pub struct DashboardError {
    pub code: String,
    pub entity: String,
    pub message: String,
}

/// The characters of a [`DashboardError`].
pub struct DashboardErrorView {
    pub code: Seq<char>,
    pub entity: Seq<char>,
    pub message: Seq<char>,
}

impl View for DashboardError {
    type V = DashboardErrorView;

    open spec fn view(&self) -> DashboardErrorView {
        DashboardErrorView { code: self.code@, entity: self.entity@, message: self.message@ }
    }
}

/// The query of the summary endpoint: the cities, separated by commas.
#[derive(Debug, Clone, PartialEq, Eq)]
pub struct DashboardCityCountQuery {
    pub cities: String,
}

/// An answer of the summary endpoint with its status.
#[derive(Debug, Clone, PartialEq, Eq)]
pub struct DashboardReply {
    pub status: HttpStatus,
    pub body: DashboardCityCountResponse,
}

/// The entity that the errors of the summary endpoint name.
pub open spec fn spec_dashboard_entity() -> Seq<char> {
    "SOCIO_ECHO"@
}

/// The cities that a query names: the pieces between commas, each without
/// the white space around it.
pub open spec fn spec_city_list(cities: Seq<char>) -> Seq<Seq<char>> {
    spec_split(cities, ',').map_values(|piece: Seq<char>| spec_trim(piece))
}

/// The cities that a query names.
pub fn city_list(cities: &str) -> (r: Vec<String>)
    ensures
        r@.len() == spec_city_list(cities@).len(),
        forall|i: int| 0 <= i < r@.len() ==> (#[trigger] r@[i])@ == spec_city_list(cities@)[i],
{
    let pieces = split(cities, ',');
    let mut list: Vec<String> = Vec::new();
    let mut i: usize = 0;
    while i < pieces.len()
        invariant
            i <= pieces@.len(),
            list@.len() == i,
            pieces@.len() == spec_split(cities@, ',').len(),
            forall|j: int|
                0 <= j < pieces@.len() ==> (#[trigger] pieces@[j])@ == spec_split(cities@, ',')[j],
            forall|j: int| 0 <= j < i ==> (#[trigger] list@[j])@ == spec_city_list(cities@)[j],
        decreases pieces@.len() - i,
    {
        list.push(trim(pieces[i].as_str()));
        i += 1;
    }
    list
}

/// The path of the search below the base URL of the index.
pub open spec fn spec_search_path() -> Seq<char> {
    "/media-online-*/_search?pretty"@
}

/// The URL of the search for the index at `base_url`.
pub fn search_url(base_url: &str) -> (r: String)
    ensures
        r@ == base_url@ + spec_search_path(),
{
    join(base_url, "/media-online-*/_search?pretty")
}

/// The names that lead from a search request to the terms it aggregates.
pub open spec fn spec_terms_path() -> Seq<Seq<char>> {
    seq!["aggs"@, "cities_count"@, "terms"@]
}

/// The names that lead from a search request to its filters.
pub open spec fn spec_filter_path() -> Seq<Seq<char>> {
    seq!["query"@, "bool"@, "filter"@]
}

/// The names that lead from a filter to the range of publication times.
pub open spec fn spec_range_path() -> Seq<Seq<char>> {
    seq!["range"@, "published_at"@]
}

/// Whether `request` is the search for `cities`: it asks for no documents,
/// filters by publication within the last hundred whole weeks, and counts the
/// ten most frequent of the given cities.
pub open spec fn spec_is_search_request(request: JsonValue, cities: Seq<String>) -> bool {
    &&& request.spec_member("size"@) == Some(JsonValue::Integer(0))
    &&& spec_path(request, spec_filter_path()) matches Some(filters)
    &&& filters.spec_elements() matches Some(filter_list)
    &&& filter_list.len() == 1
    &&& spec_path(filter_list[0], spec_range_path()) matches Some(range)
    &&& range.spec_member("gte"@) matches Some(from)
    &&& from.spec_text() == Some("now-100w/w"@)
    &&& range.spec_member("lt"@) matches Some(until)
    &&& until.spec_text() == Some("now/w"@)
    &&& spec_path(request, spec_terms_path()) matches Some(terms)
    &&& terms.spec_member("field"@) matches Some(field)
    &&& field.spec_text() == Some("cities.keyword"@)
    &&& terms.spec_member("size"@) == Some(JsonValue::Integer(10))
    &&& terms.spec_member("include"@) matches Some(wanted)
    &&& wanted.spec_elements() matches Some(included)
    &&& included.len() == cities.len()
    &&& forall|i: int|
        0 <= i < cities.len() ==> (#[trigger] included[i]).spec_text() == Some(cities[i]@)
}

/// The search that counts the given cities.
pub fn search_request(cities: &Vec<String>) -> (r: JsonValue)
    ensures
        spec_is_search_request(r, cities@),
{
    proof {
        reveal_strlit("gte");
        reveal_strlit("lt");
        reveal_strlit("field");
        reveal_strlit("include");
        reveal_strlit("size");
        reveal_strlit("query");
        reveal_strlit("aggs");
    }
    assert("gte"@.len() != "lt"@.len());
    let range = object_of_two("gte", JsonValue::text("now-100w/w"), "lt", JsonValue::text("now/w"));
    let filter = object_of_one("range", object_of_one("published_at", range));
    let mut filter_list: Vec<JsonValue> = Vec::new();
    filter_list.push(filter);
    let filters = JsonValue::Array(filter_list);
    let query = object_of_one("bool", object_of_one("filter", filters));
    assert("field"@.len() != "include"@.len());
    assert("field"@.len() != "size"@.len());
    assert("include"@.len() != "size"@.len());
    let terms = object_of_three(
        "field",
        JsonValue::text("cities.keyword"),
        "include",
        array_of_texts(cities),
        "size",
        JsonValue::Integer(10),
    );
    let aggs = object_of_one("cities_count", object_of_one("terms", terms));
    assert("size"@.len() != "query"@.len());
    assert("size"@[0] != "aggs"@[0]);
    assert("query"@.len() != "aggs"@.len());
    let request = object_of_three("size", JsonValue::Integer(0), "query", query, "aggs", aggs);
    proof {
        reveal_with_fuel(spec_path, 4);
        let fp = spec_filter_path();
        assert(fp.drop_first() =~= seq!["bool"@, "filter"@]);
        assert(fp.drop_first().drop_first() =~= seq!["filter"@]);
        assert(fp.drop_first().drop_first().drop_first() =~= Seq::<Seq<char>>::empty());
        let tp = spec_terms_path();
        assert(tp.drop_first() =~= seq!["cities_count"@, "terms"@]);
        assert(tp.drop_first().drop_first() =~= seq!["terms"@]);
        assert(tp.drop_first().drop_first().drop_first() =~= Seq::<Seq<char>>::empty());
        let rp = spec_range_path();
        assert(rp.drop_first() =~= seq!["published_at"@]);
        assert(rp.drop_first().drop_first() =~= Seq::<Seq<char>>::empty());
        assert(spec_path(request, fp) == Some(filters));
        assert(spec_path(request, tp) == Some(terms));
        assert(spec_path(filter, rp) == Some(range));
    }
    request
}

/// The names that lead from a search reply to its buckets.
pub open spec fn spec_buckets_path() -> Seq<Seq<char>> {
    seq!["aggregations"@, "cities_count"@, "buckets"@]
}

/// The buckets of a search reply; none where the reply has no list of buckets.
pub open spec fn spec_buckets(reply: JsonValue) -> Seq<JsonValue> {
    match spec_path(reply, spec_buckets_path()) {
        Some(buckets) => match buckets.spec_elements() {
            Some(list) => list,
            None => Seq::empty(),
        },
        None => Seq::empty(),
    }
}

/// The city and the count of a bucket, where it has a text as its `key` and
/// an integer as its `doc_count`.
pub open spec fn spec_bucket_entry(bucket: JsonValue) -> Option<(Seq<char>, i64)> {
    match (bucket.spec_member("key"@), bucket.spec_member("doc_count"@)) {
        (Some(key), Some(count)) => match (key.spec_text(), count.spec_integer()) {
            (Some(city), Some(n)) => Some((city, n)),
            _ => None,
        },
        _ => None,
    }
}

/// The count of `city` in a list of buckets: that of the last bucket for
/// the city, and zero where there is none.
pub open spec fn spec_count_in(buckets: Seq<JsonValue>, city: Seq<char>) -> i64
    decreases buckets.len(),
{
    if buckets.len() == 0 {
        0
    } else {
        match spec_bucket_entry(buckets.last()) {
            Some((name, n)) => if name == city {
                n
            } else {
                spec_count_in(buckets.drop_last(), city)
            },
            None => spec_count_in(buckets.drop_last(), city),
        }
    }
}

/// The count of `city` in a search reply.
pub open spec fn spec_city_count(reply: JsonValue, city: Seq<char>) -> i64 {
    spec_count_in(spec_buckets(reply), city)
}

/// The count of `city` in a search reply.
pub fn city_count(reply: &JsonValue, city: &str) -> (r: i64)
    ensures
        r == spec_city_count(*reply, city@),
{
    proof {
        reveal_with_fuel(spec_path, 4);
        let bp = spec_buckets_path();
        assert(bp.drop_first() =~= seq!["cities_count"@, "buckets"@]);
        assert(bp.drop_first().drop_first() =~= seq!["buckets"@]);
        assert(bp.drop_first().drop_first().drop_first() =~= Seq::<Seq<char>>::empty());
    }
    let aggregations = match reply.member("aggregations") {
        Some(v) => v,
        None => {
            return 0;
        },
    };
    let counted = match aggregations.member("cities_count") {
        Some(v) => v,
        None => {
            return 0;
        },
    };
    let buckets = match counted.member("buckets") {
        Some(v) => v,
        None => {
            return 0;
        },
    };
    let list = match buckets.as_array() {
        Some(list) => list,
        None => {
            return 0;
        },
    };
    assert(spec_buckets(*reply) == list@);
    let mut i: usize = list.len();
    proof {
        assert(list@.take(i as int) =~= list@);
    }
    while i > 0
        invariant
            i <= list@.len(),
            spec_buckets(*reply) == list@,
            spec_count_in(list@, city@) == spec_count_in(list@.take(i as int), city@),
        decreases i,
    {
        let ghost current = list@.take(i as int);
        proof {
            assert(current.last() == list@[i - 1]);
            assert(current.drop_last() =~= list@.take(i - 1));
        }
        let bucket = &list[i - 1];
        match (bucket.member("key"), bucket.member("doc_count")) {
            (Some(key), Some(count)) => match (key.as_text(), count.as_integer()) {
                (Some(name), Some(n)) => {
                    if same_text(name.as_str(), city) {
                        assert(spec_bucket_entry(current.last()) == Some((name@, n)));
                        return n;
                    }
                },
                _ => {},
            },
            _ => {},
        }
        i -= 1;
    }
    0
}

/// Whether the list of cities names `name`.
pub open spec fn spec_names(cities: Seq<String>, name: Seq<char>) -> bool {
    exists|i: int| 0 <= i < cities.len() && (#[trigger] cities[i])@ == name
}

/// Whether some entry is of the city `name`.
pub open spec fn spec_has_entry(entries: Seq<CityCount>, name: Seq<char>) -> bool {
    exists|k: int| 0 <= k < entries.len() && (#[trigger] entries[k]).city@ == name
}

/// Whether `entries` hold the counts of `cities` in `reply`: a city has an
/// entry exactly if it is requested, every entry holds the count of its
/// city, and no city has two entries.
pub open spec fn spec_counts(entries: Seq<CityCount>, reply: JsonValue, cities: Seq<String>) -> bool {
    &&& forall|name: Seq<char>| #[trigger]
        spec_has_entry(entries, name) <==> spec_names(cities, name)
    &&& forall|k: int|
        0 <= k < entries.len() ==> (#[trigger] entries[k]).count == spec_city_count(
            reply,
            entries[k].city@,
        )
    &&& forall|k: int, l: int|
        0 <= k < l < entries.len() ==> (#[trigger] entries[k]).city@ != (#[trigger] entries[l]).city@
}

/// Whether `data` holds the counts of `cities` in `reply`.
pub open spec fn spec_is_count_of(
    data: DashboardCityCountData,
    reply: JsonValue,
    cities: Seq<String>,
) -> bool {
    spec_counts(data.cities@, reply, cities)
}

/// One more requested city is named by the longer list, besides what the
/// shorter list names.
proof fn lemma_names_extended(cities: Seq<String>, i: int, name: Seq<char>)
    requires
        0 <= i < cities.len(),
    ensures
        spec_names(cities.take(i + 1), name) <==> (spec_names(cities.take(i), name) || cities[i]@
            == name),
{
    let shorter = cities.take(i);
    let longer = cities.take(i + 1);
    if spec_names(shorter, name) {
        let j = choose|j: int| 0 <= j < shorter.len() && (#[trigger] shorter[j])@ == name;
        assert(longer[j]@ == name);
    }
    if cities[i]@ == name {
        assert(longer[i]@ == name);
    }
    if spec_names(longer, name) {
        let j = choose|j: int| 0 <= j < longer.len() && (#[trigger] longer[j])@ == name;
        if j < i {
            assert(shorter[j]@ == name);
        }
    }
}

/// One more entry is had by the longer list, besides what the shorter has.
proof fn lemma_entries_extended(entries: Seq<CityCount>, entry: CityCount, name: Seq<char>)
    ensures
        spec_has_entry(entries.push(entry), name) <==> (spec_has_entry(entries, name) || entry.city@
            == name),
{
    let longer = entries.push(entry);
    if spec_has_entry(entries, name) {
        let k = choose|k: int| 0 <= k < entries.len() && (#[trigger] entries[k]).city@ == name;
        assert(longer[k].city@ == name);
    }
    if entry.city@ == name {
        assert(longer[entries.len() as int].city@ == name);
    }
    if spec_has_entry(longer, name) {
        let k = choose|k: int| 0 <= k < longer.len() && (#[trigger] longer[k]).city@ == name;
        if k < entries.len() {
            assert(entries[k].city@ == name);
        }
    }
}

/// The counts stay the counts when a city is requested that has its entry.
proof fn lemma_counts_known(entries: Seq<CityCount>, reply: JsonValue, cities: Seq<String>, i: int)
    requires
        0 <= i < cities.len(),
        spec_counts(entries, reply, cities.take(i)),
        spec_has_entry(entries, cities[i]@),
    ensures
        spec_counts(entries, reply, cities.take(i + 1)),
{
    assert forall|name: Seq<char>| #[trigger]
        spec_has_entry(entries, name) <==> spec_names(cities.take(i + 1), name) by {
        lemma_names_extended(cities, i, name);
    }
}

/// The counts with one more entry are the counts of one more requested city.
proof fn lemma_counts_new(
    entries: Seq<CityCount>,
    entry: CityCount,
    reply: JsonValue,
    cities: Seq<String>,
    i: int,
)
    requires
        0 <= i < cities.len(),
        spec_counts(entries, reply, cities.take(i)),
        !spec_has_entry(entries, cities[i]@),
        entry.city@ == cities[i]@,
        entry.count == spec_city_count(reply, entry.city@),
    ensures
        spec_counts(entries.push(entry), reply, cities.take(i + 1)),
{
    let longer = entries.push(entry);
    assert forall|name: Seq<char>| #[trigger]
        spec_has_entry(longer, name) <==> spec_names(cities.take(i + 1), name) by {
        lemma_names_extended(cities, i, name);
        lemma_entries_extended(entries, entry, name);
    }
    assert forall|k: int, l: int| 0 <= k < l < longer.len() implies (#[trigger] longer[k]).city@ != (
    #[trigger] longer[l]).city@ by {
        if l == entries.len() {
            assert(entries[k].city@ != cities[i]@);
        } else {
            assert(entries[k].city@ != entries[l].city@);
        }
    }
}

/// Whether some entry of `entries` is of `city`.
fn has_city(entries: &Vec<CityCount>, city: &str) -> (r: bool)
    ensures
        r == spec_has_entry(entries@, city@),
{
    let mut k: usize = 0;
    while k < entries.len()
        invariant
            k <= entries@.len(),
            forall|j: int| 0 <= j < k ==> (#[trigger] entries@[j]).city@ != city@,
        decreases entries@.len() - k,
    {
        if same_text(entries[k].city.as_str(), city) {
            return true;
        }
        k += 1;
    }
    false
}

/// The counts of the requested cities in a search reply. A city that the
/// reply does not count is counted zero; a city that is requested twice is
/// answered once.
pub fn city_counts(reply: &JsonValue, cities: &Vec<String>) -> (r: DashboardCityCountData)
    ensures
        spec_is_count_of(r, *reply, cities@),
{
    let mut entries: Vec<CityCount> = Vec::new();
    let mut i: usize = 0;
    proof {
        assert(cities@.take(0) =~= Seq::empty());
    }
    while i < cities.len()
        invariant
            i <= cities@.len(),
            spec_counts(entries@, *reply, cities@.take(i as int)),
        decreases cities@.len() - i,
    {
        let city = &cities[i];
        if has_city(&entries, city.as_str()) {
            proof {
                lemma_counts_known(entries@, *reply, cities@, i as int);
            }
        } else {
            let count = city_count(reply, city.as_str());
            let entry = CityCount { city: city.clone(), count };
            proof {
                lemma_counts_new(entries@, entry, *reply, cities@, i as int);
            }
            entries.push(entry);
        }
        i += 1;
    }
    proof {
        assert(cities@.take(cities@.len() as int) =~= cities@);
    }
    DashboardCityCountData { cities: entries }
}

/// The failed answer with the given status and the one given error.
fn failure(status: HttpStatus, code: &str, message: String) -> (r: DashboardReply)
    ensures
        r.status == status,
        !r.body.success,
        r.body.data is None,
        r.body.errors matches Some(errors) && errors@.len() == 1 && errors@[0]@ == (
        DashboardErrorView { code: code@, entity: spec_dashboard_entity(), message: message@ }),
{
    let mut errors: Vec<DashboardError> = Vec::new();
    errors.push(DashboardError { code: code.to_owned(), entity: "SOCIO_ECHO".to_owned(), message });
    DashboardReply {
        status,
        body: DashboardCityCountResponse { success: false, data: None, errors: Some(errors) },
    }
}

/// The answer to a request without a token, or with one that is not valid.
pub fn unauthorized() -> (r: DashboardReply)
    ensures
        r.status == HttpStatus::Unauthorized,
        !r.body.success,
        r.body.data is None,
        r.body.errors matches Some(errors) && errors@.len() == 1 && errors@[0]@ == (
        DashboardErrorView {
            code: "401"@,
            entity: spec_dashboard_entity(),
            message: "MISSING_OR_INVALID_TOKEN"@,
        }),
{
    failure(HttpStatus::Unauthorized, "401", "MISSING_OR_INVALID_TOKEN".to_owned())
}

/// The answer to a request that names no cities.
pub fn missing_cities() -> (r: DashboardReply)
    ensures
        r.status == HttpStatus::BadRequest,
        !r.body.success,
        r.body.data is None,
        r.body.errors matches Some(errors) && errors@.len() == 1 && errors@[0]@ == (
        DashboardErrorView {
            code: "1003"@,
            entity: spec_dashboard_entity(),
            message: "Query param 'cities' is required"@,
        }),
{
    failure(HttpStatus::BadRequest, "1003", "Query param 'cities' is required".to_owned())
}

/// The answer where the search could not be made.
pub fn search_failed(detail: &str) -> (r: DashboardReply)
    ensures
        r.status == HttpStatus::InternalServerError,
        !r.body.success,
        r.body.data is None,
        r.body.errors matches Some(errors) && errors@.len() == 1 && errors@[0]@ == (
        DashboardErrorView {
            code: "100"@,
            entity: spec_dashboard_entity(),
            message: "ELASTIC_REQUEST_ERROR: "@ + detail@,
        }),
{
    failure(HttpStatus::InternalServerError, "100", join("ELASTIC_REQUEST_ERROR: ", detail))
}

/// The answer where the reply to the search could not be read.
pub fn reply_unreadable(detail: &str) -> (r: DashboardReply)
    ensures
        r.status == HttpStatus::InternalServerError,
        !r.body.success,
        r.body.data is None,
        r.body.errors matches Some(errors) && errors@.len() == 1 && errors@[0]@ == (
        DashboardErrorView {
            code: "100"@,
            entity: spec_dashboard_entity(),
            message: "ELASTIC_PARSE_ERROR: "@ + detail@,
        }),
{
    failure(HttpStatus::InternalServerError, "100", join("ELASTIC_PARSE_ERROR: ", detail))
}

/// The answer to a summary request from the reply to its search: the counts
/// of the cities that the query names.
pub fn summary(reply: &JsonValue, cities: &Vec<String>) -> (r: DashboardReply)
    ensures
        r.status == HttpStatus::Success,
        r.body.success,
        r.body.errors is None,
        r.body.data matches Some(data) && spec_is_count_of(data, *reply, cities@),
{
    DashboardReply {
        status: HttpStatus::Success,
        body: DashboardCityCountResponse {
            success: true,
            data: Some(city_counts(reply, cities)),
            errors: None,
        },
    }
}

} // verus!
