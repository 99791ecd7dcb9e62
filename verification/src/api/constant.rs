//! The registry of chat models: which models the service offers, the ids
//! under which clients may ask for them, and how a model list fetched from the
//! upstream service is merged into the known one.
use vstd::prelude::*;

use crate::api::aiserver::v1::available_models_response::{AvailableModel, flag};
use crate::api::model::{Model, ModelView, model_view, same_model};
use crate::common::model::config::FetchMode;
use crate::text::{has_suffix, str_eq, strip_suffix};

pub mod display_name;

verus! {

/// The length in bytes of the UTF-8 encoding of `s`, as `str::len` reports it.
pub open spec fn byte_len(s: Seq<char>) -> usize {
    vstd::utf8::encode_utf8(s).len() as usize
}

/// The company that owns a model, read from the first characters of its
/// upstream id (`gp`, `o1`, `o3`, `o4`: OpenAI; `ge`: Google; `gr`: xAI; `cl`:
/// Anthropic; `cu`: Cursor; `dee`: DeepSeek; `a` and more than 26 bytes:
/// Fireworks); `unknown` otherwise.
pub open spec fn owner_name(s: Seq<char>) -> Seq<char> {
    if s.len() >= 2 && s[0] == 'g' && s[1] == 'p' {
        "openai"@
    } else if s.len() >= 2 && s[0] == 'g' && s[1] == 'e' {
        "google"@
    } else if s.len() >= 2 && s[0] == 'g' && s[1] == 'r' {
        "xai"@
    } else if s.len() >= 2 && s[0] == 'o' && (s[1] == '1' || s[1] == '3' || s[1] == '4') {
        "openai"@
    } else if s.len() >= 2 && s[0] == 'c' && s[1] == 'l' {
        "anthropic"@
    } else if s.len() >= 2 && s[0] == 'c' && s[1] == 'u' {
        "cursor"@
    } else if s.len() >= 3 && s[0] == 'd' && s[1] == 'e' && s[2] == 'e' {
        "deepseek"@
    } else if s.len() >= 1 && s[0] == 'a' && byte_len(s) > 26 {
        "fireworks"@
    } else {
        "unknown"@
    }
}

/// The owner of the model with upstream id `server_id` (see `owner_name`).
pub fn owner_of(server_id: &str) -> (r: &'static str)
    ensures
        r@ == owner_name(server_id@),
{
    let n = server_id.unicode_len();
    if n == 0 {
        return "unknown";
    }
    let c0 = server_id.get_char(0);
    if c0 == 'a' {
        return if server_id.len() > 26 {
            "fireworks"
        } else {
            "unknown"
        };
    }
    if n < 2 {
        return "unknown";
    }
    let c1 = server_id.get_char(1);
    if c0 == 'g' {
        if c1 == 'p' {
            "openai"
        } else if c1 == 'e' {
            "google"
        } else if c1 == 'r' {
            "xai"
        } else {
            "unknown"
        }
    } else if c0 == 'o' {
        if c1 == '1' || c1 == '3' || c1 == '4' {
            "openai"
        } else {
            "unknown"
        }
    } else if c0 == 'c' {
        if c1 == 'l' {
            "anthropic"
        } else if c1 == 'u' {
            "cursor"
        } else {
            "unknown"
        }
    } else if c0 == 'd' {
        if c1 == 'e' && n >= 3 && server_id.get_char(2) == 'e' {
            "deepseek"
        } else {
            "unknown"
        }
    } else {
        "unknown"
    }
}

/// `alt` when it is given and differs from `name`; `name` otherwise.
pub open spec fn pick_id(name: Seq<char>, alt: Option<String>) -> Seq<char> {
    match alt {
        Some(c) => if c@ != name {
            c@
        } else {
            name
        },
        None => name,
    }
}

/// The model that an upstream model entry stands for: its name is the client
/// id, its display and upstream names default to the name, its owner is read
/// from the upstream id, and the `default` model always takes images.
pub open spec fn converted(m: AvailableModel) -> ModelView {
    let id = m.name@;
    let server = pick_id(id, m.server_model_name);
    ModelView {
        id: id,
        client_id: pick_id(id, m.client_display_name),
        server_id: server,
        owned_by: owner_name(server),
        is_thinking: flag(m.supports_thinking),
        is_image: if server == "default"@ {
            true
        } else {
            flag(m.supports_images)
        },
        is_max: flag(m.supports_max_mode),
        is_non_max: flag(m.supports_non_max_mode),
    }
}

/// What a list of models stands for.
pub open spec fn views(ms: Seq<Model>) -> Seq<ModelView> {
    ms.map_values(|m: Model| model_view(m))
}

/// Some model in the list has client id `id`.
pub open spec fn contains_id(vs: Seq<ModelView>, id: Seq<char>) -> bool {
    exists|i: int| 0 <= i < vs.len() && #[trigger] vs[i].id == id
}

/// Some upstream entry in the list is named `id`.
pub open spec fn names_contain(ms: Seq<AvailableModel>, id: Seq<char>) -> bool {
    exists|i: int| 0 <= i < ms.len() && #[trigger] ms[i].name@ == id
}

/// Every upstream entry, converted.
pub open spec fn convert_all(ms: Seq<AvailableModel>) -> Seq<ModelView> {
    ms.map_values(|m: AvailableModel| converted(m))
}

/// The known models that no upstream entry names.
pub open spec fn keep_unnamed(cur: Seq<ModelView>, incoming: Seq<AvailableModel>) -> Seq<ModelView>
    decreases cur.len(),
{
    if cur.len() == 0 {
        Seq::empty()
    } else {
        let r = keep_unnamed(cur.drop_last(), incoming);
        if names_contain(incoming, cur.last().id) {
            r
        } else {
            r.push(cur.last())
        }
    }
}

/// The upstream entries whose name is no known model's id, converted.
pub open spec fn converted_new(incoming: Seq<AvailableModel>, cur: Seq<ModelView>) -> Seq<ModelView>
    decreases incoming.len(),
{
    if incoming.len() == 0 {
        Seq::empty()
    } else {
        let r = converted_new(incoming.drop_last(), cur);
        if contains_id(cur, incoming.last().name@) {
            r
        } else {
            r.push(converted(incoming.last()))
        }
    }
}

/// The model list after a fetched list is merged in.
pub open spec fn merged(cur: Seq<ModelView>, incoming: Seq<AvailableModel>, mode: FetchMode) -> Seq<ModelView> {
    match mode {
        FetchMode::Truncate => convert_all(incoming),
        FetchMode::AppendTruncate => keep_unnamed(cur, incoming) + convert_all(incoming),
        FetchMode::Append => cur + converted_new(incoming, cur),
    }
}

/// Two model lists hold the same entries in the same order.
pub open spec fn same_list(a: Seq<Model>, b: Seq<Model>) -> bool {
    a.len() == b.len() && forall|i: int| 0 <= i < a.len() ==> same_model(#[trigger] a[i], b[i])
}

/// Two models are the same entry: their client ids and capabilities agree.
pub open spec fn same_view(a: ModelView, b: ModelView) -> bool {
    a.id == b.id && a.is_thinking == b.is_thinking && a.is_image == b.is_image && a.is_max == b.is_max
        && a.is_non_max == b.is_non_max
}

/// Two model lists hold the same entries in the same order.
pub open spec fn same_views(a: Seq<ModelView>, b: Seq<ModelView>) -> bool {
    a.len() == b.len() && forall|i: int| 0 <= i < a.len() ==> same_view(#[trigger] a[i], b[i])
}

/// A copy of an optional string.
fn copy_opt(s: &Option<String>) -> (r: Option<String>)
    ensures
        (match s {
            Some(x) => r matches Some(y) && y@ == x@,
            None => r is None,
        }),
{
    match s {
        Some(x) => Some(x.clone()),
        None => None,
    }
}

/// `alt` when it is given and differs from `name`; `name` otherwise.
fn pick(name: &String, alt: &Option<String>) -> (r: String)
    ensures
        r@ == pick_id(name@, *alt),
{
    match alt {
        Some(c) => if !str_eq(c.as_str(), name.as_str()) {
            c.clone()
        } else {
            name.clone()
        },
        None => name.clone(),
    }
}

/// The model that an upstream entry stands for (see `converted`).
pub fn convert_model(m: &AvailableModel) -> (r: Model)
    ensures
        model_view(r) == converted(*m),
{
    let id = m.name.clone();
    let client_id = pick(&m.name, &m.client_display_name);
    let server_id = pick(&m.name, &m.server_model_name);
    let owned_by = owner_of(server_id.as_str());
    let is_thinking = m.supports_thinking();
    let is_image = if str_eq(server_id.as_str(), "default") {
        true
    } else {
        m.supports_images()
    };
    let is_max = m.supports_max_mode();
    let is_non_max = m.supports_non_max_mode();
    Model { id, client_id, server_id, owned_by, is_thinking, is_image, is_max, is_non_max }
}

/// Whether some model in `ms` has client id `id`.
pub fn contains_model_id(ms: &Vec<Model>, id: &str) -> (r: bool)
    ensures
        r == contains_id(views(ms@), id@),
{
    let mut i: usize = 0;
    while i < ms.len()
        invariant
            i <= ms.len(),
            forall|j: int| 0 <= j < i ==> ms@[j].id@ != id@,
        decreases ms.len() - i,
    {
        if str_eq(ms[i].id.as_str(), id) {
            assert(views(ms@)[i as int].id == id@);
            return true;
        }
        i = i + 1;
    }
    assert forall|j: int| 0 <= j < views(ms@).len() implies #[trigger] views(ms@)[j].id != id@ by {
        assert(views(ms@)[j] == model_view(ms@[j]));
    }
    false
}

/// Whether some upstream entry in `ms` is named `id`.
pub fn contains_name(ms: &Vec<AvailableModel>, id: &str) -> (r: bool)
    ensures
        r == names_contain(ms@, id@),
{
    let mut i: usize = 0;
    while i < ms.len()
        invariant
            i <= ms.len(),
            forall|j: int| 0 <= j < i ==> ms@[j].name@ != id@,
        decreases ms.len() - i,
    {
        if str_eq(ms[i].name.as_str(), id) {
            return true;
        }
        i = i + 1;
    }
    false
}

/// Whether the two lists hold the same entries in the same order.
pub fn same_models(a: &Vec<Model>, b: &Vec<Model>) -> (r: bool)
    ensures
        r == same_list(a@, b@),
        r == same_views(views(a@), views(b@)),
{
    if a.len() != b.len() {
        return false;
    }
    let mut i: usize = 0;
    while i < a.len()
        invariant
            a.len() == b.len(),
            i <= a.len(),
            forall|j: int| 0 <= j < i ==> same_model(#[trigger] a@[j], b@[j]),
        decreases a.len() - i,
    {
        if !a[i].same_as(&b[i]) {
            assert(!same_view(views(a@)[i as int], views(b@)[i as int]));
            return false;
        }
        i = i + 1;
    }
    assert forall|j: int| 0 <= j < views(a@).len() implies same_view(#[trigger] views(a@)[j], views(b@)[j]) by {
        assert(same_model(a@[j], b@[j]));
    }
    true
}

/// The model list after the fetched entries `incoming` are merged into
/// `current` by `mode` (see `merged`).
pub fn merge_models(current: &Vec<Model>, incoming: &Vec<AvailableModel>, mode: FetchMode) -> (r: Vec<Model>)
    ensures
        views(r@) == merged(views(current@), incoming@, mode),
{
    let mut r: Vec<Model> = Vec::new();
    let ghost cur = views(current@);
    match mode {
        FetchMode::Truncate => {},
        FetchMode::AppendTruncate => {
            let mut i: usize = 0;
            while i < current.len()
                invariant
                    i <= current.len(),
                    cur == views(current@),
                    views(r@) == keep_unnamed(cur.take(i as int), incoming@),
                decreases current.len() - i,
            {
                assert(cur.take(i as int + 1).drop_last() =~= cur.take(i as int));
                assert(cur.take(i as int + 1).last() == model_view(current@[i as int]));
                if !contains_name(incoming, current[i].id.as_str()) {
                    let ghost prev = r@;
                    r.push(current[i].duplicate());
                    assert(views(r@) =~= views(prev).push(model_view(current@[i as int])));
                }
                i = i + 1;
            }
            assert(cur.take(current.len() as int) =~= cur);
        },
        FetchMode::Append => {
            let mut i: usize = 0;
            while i < current.len()
                invariant
                    i <= current.len(),
                    cur == views(current@),
                    views(r@) == cur.take(i as int),
                decreases current.len() - i,
            {
                let ghost prev = r@;
                r.push(current[i].duplicate());
                assert(views(r@) =~= views(prev).push(model_view(current@[i as int])));
                assert(cur.take(i as int + 1) =~= cur.take(i as int).push(cur[i as int]));
                i = i + 1;
            }
            assert(cur.take(current.len() as int) =~= cur);
            let ghost base = r@;
            let mut k: usize = 0;
            while k < incoming.len()
                invariant
                    k <= incoming.len(),
                    cur == views(current@),
                    views(base) == cur,
                    views(r@) == cur + converted_new(incoming@.take(k as int), cur),
                decreases incoming.len() - k,
            {
                assert(incoming@.take(k as int + 1).drop_last() =~= incoming@.take(k as int));
                assert(incoming@.take(k as int + 1).last() == incoming@[k as int]);
                if !contains_model_id(current, incoming[k].name.as_str()) {
                    let ghost prev = r@;
                    r.push(convert_model(&incoming[k]));
                    assert(views(r@) =~= views(prev).push(converted(incoming@[k as int])));
                }
                k = k + 1;
            }
            assert(incoming@.take(incoming.len() as int) =~= incoming@);
            return r;
        },
    }
    let ghost base = r@;
    let mut k: usize = 0;
    while k < incoming.len()
        invariant
            k <= incoming.len(),
            views(r@) == views(base) + convert_all(incoming@.take(k as int)),
        decreases incoming.len() - k,
    {
        let ghost prev = r@;
        r.push(convert_model(&incoming[k]));
        assert(views(r@) =~= views(prev).push(converted(incoming@[k as int])));
        assert(convert_all(incoming@.take(k as int + 1)) =~= convert_all(incoming@.take(k as int)).push(
            converted(incoming@[k as int]),
        ));
        k = k + 1;
    }
    assert(incoming@.take(incoming.len() as int) =~= incoming@);
    proof {
        if mode == FetchMode::Truncate {
            assert(views(base) =~= Seq::<ModelView>::empty());
        }
    }
    r
}

/// The models of `a` whose id no model of `b` has, in order.
pub open spec fn missing_from(a: Seq<ModelView>, b: Seq<ModelView>) -> Seq<ModelView>
    decreases a.len(),
{
    if a.len() == 0 {
        Seq::empty()
    } else {
        let r = missing_from(a.drop_last(), b);
        if contains_id(b, a.last().id) {
            r
        } else {
            r.push(a.last())
        }
    }
}

/// Whether `id` is one of the ids cached for the model with id `m`: `m`
/// itself, `m-online`, `m-max-online` or `m-max`.
pub open spec fn cached_for(id: Seq<char>, m: Seq<char>) -> bool {
    id == m || if has_suffix(id, "-online"@) {
        let base = id.subrange(0, id.len() - 7);
        base == m || (has_suffix(base, "-max"@) && base.subrange(0, base.len() - 4) == m)
    } else if has_suffix(id, "-max"@) {
        id.subrange(0, id.len() - 4) == m
    } else {
        false
    }
}

/// Whether `id` is cached for one of the models `ms`.
pub open spec fn cached_for_any(id: Seq<char>, ms: Seq<ModelView>) -> bool {
    exists|j: int| 0 <= j < ms.len() && cached_for(id, #[trigger] ms[j].id)
}

/// The cached ids that belong to none of the models `removed`, in order.
pub open spec fn kept_ids(cached: Seq<Seq<char>>, removed: Seq<ModelView>) -> Seq<Seq<char>>
    decreases cached.len(),
{
    if cached.len() == 0 {
        Seq::empty()
    } else {
        let r = kept_ids(cached.drop_last(), removed);
        if cached_for_any(cached.last(), removed) {
            r
        } else {
            r.push(cached.last())
        }
    }
}

/// The ids under which clients may ask for a model: its id and its `-online`
/// form, and, when `with_max` holds, its `-max` and `-max-online` forms.
pub open spec fn ids_of(id: Seq<char>, with_max: bool) -> Seq<Seq<char>> {
    if with_max {
        seq![id, id + "-online"@, id + "-max"@, id + "-max-online"@]
    } else {
        seq![id, id + "-online"@]
    }
}

/// The ids of the models `added`, in order, each with its max forms when the
/// model has a max mode.
pub open spec fn added_ids(added: Seq<ModelView>) -> Seq<Seq<char>>
    decreases added.len(),
{
    if added.len() == 0 {
        Seq::empty()
    } else {
        added_ids(added.drop_last()) + ids_of(added.last().id, added.last().is_max)
    }
}

/// The cached ids after the model list changes from `old` to `new`: the ids of
/// removed models are dropped and the ids of added models appended.
pub open spec fn updated_ids(cached: Seq<Seq<char>>, old: Seq<ModelView>, new: Seq<ModelView>) -> Seq<Seq<char>> {
    kept_ids(cached, missing_from(old, new)) + added_ids(missing_from(new, old))
}

/// The texts of a list of strings.
pub open spec fn texts(v: Seq<String>) -> Seq<Seq<char>> {
    v.map_values(|s: String| s@)
}

/// The models of `a` whose id no model of `b` has, in order.
fn missing_models(a: &Vec<Model>, b: &Vec<Model>) -> (r: Vec<Model>)
    ensures
        views(r@) == missing_from(views(a@), views(b@)),
{
    let mut r: Vec<Model> = Vec::new();
    let ghost va = views(a@);
    let mut i: usize = 0;
    while i < a.len()
        invariant
            i <= a.len(),
            va == views(a@),
            views(r@) == missing_from(va.take(i as int), views(b@)),
        decreases a.len() - i,
    {
        assert(va.take(i as int + 1).drop_last() =~= va.take(i as int));
        assert(va.take(i as int + 1).last() == model_view(a@[i as int]));
        if !contains_model_id(b, a[i].id.as_str()) {
            let ghost prev = r@;
            r.push(a[i].duplicate());
            assert(views(r@) =~= views(prev).push(model_view(a@[i as int])));
        }
        i = i + 1;
    }
    assert(va.take(a.len() as int) =~= va);
    r
}

/// Whether `id` is one of the ids cached for the model with id `m`.
fn is_cached_for(id: &str, m: &str) -> (r: bool)
    ensures
        r == cached_for(id@, m@),
{
    proof {
        reveal_strlit("-online");
        reveal_strlit("-max");
        assert("-online"@.len() == 7);
        assert("-max"@.len() == 4);
    }
    if str_eq(id, m) {
        return true;
    }
    match strip_suffix(id, "-online") {
        Some(base) => {
            if str_eq(base, m) {
                return true;
            }
            match strip_suffix(base, "-max") {
                Some(b) => str_eq(b, m),
                None => false,
            }
        },
        None => match strip_suffix(id, "-max") {
            Some(base) => str_eq(base, m),
            None => false,
        },
    }
}

/// Whether `id` is cached for one of the models `ms`.
fn is_cached_for_any(id: &str, ms: &Vec<Model>) -> (r: bool)
    ensures
        r == cached_for_any(id@, views(ms@)),
{
    let mut j: usize = 0;
    while j < ms.len()
        invariant
            j <= ms.len(),
            forall|k: int| 0 <= k < j ==> !cached_for(id@, #[trigger] ms@[k].id@),
        decreases ms.len() - j,
    {
        if is_cached_for(id, ms[j].id.as_str()) {
            assert(views(ms@)[j as int].id == ms@[j as int].id@);
            return true;
        }
        j = j + 1;
    }
    assert forall|k: int| 0 <= k < views(ms@).len() implies !cached_for(id@, #[trigger] views(ms@)[k].id) by {
        assert(views(ms@)[k].id == ms@[k].id@);
    }
    false
}

/// `id` followed by `suffix`.
fn suffixed(id: &String, suffix: &str) -> (r: String)
    ensures
        r@ == id@ + suffix@,
{
    let mut s = id.clone();
    s.append(suffix);
    s
}

/// The cached ids after the model list changes from `old` to `new` (see
/// `updated_ids`).
pub fn update_cached_ids(cached: &Vec<String>, old: &Vec<Model>, new: &Vec<Model>) -> (r: Vec<String>)
    ensures
        texts(r@) == updated_ids(texts(cached@), views(old@), views(new@)),
{
    let removed = missing_models(old, new);
    let added = missing_models(new, old);
    let ghost rm = views(removed@);
    let ghost tc = texts(cached@);
    let mut r: Vec<String> = Vec::new();
    let mut i: usize = 0;
    while i < cached.len()
        invariant
            i <= cached.len(),
            rm == views(removed@),
            tc == texts(cached@),
            texts(r@) == kept_ids(tc.take(i as int), rm),
        decreases cached.len() - i,
    {
        assert(tc.take(i as int + 1).drop_last() =~= tc.take(i as int));
        assert(tc.take(i as int + 1).last() == cached@[i as int]@);
        if !is_cached_for_any(cached[i].as_str(), &removed) {
            let ghost prev = r@;
            let c = cached[i].clone();
            r.push(c);
            assert(texts(r@) =~= texts(prev).push(c@));
        }
        i = i + 1;
    }
    assert(tc.take(cached.len() as int) =~= tc);
    let ghost kept = texts(r@);
    let ghost ad = views(added@);
    let mut k: usize = 0;
    while k < added.len()
        invariant
            k <= added.len(),
            ad == views(added@),
            texts(r@) == kept + added_ids(ad.take(k as int)),
        decreases added.len() - k,
    {
        let m = &added[k];
        let ghost prev = r@;
        let c0 = m.id.clone();
        let c1 = suffixed(&m.id, "-online");
        r.push(c0);
        r.push(c1);
        if m.is_max {
            let c2 = suffixed(&m.id, "-max");
            let c3 = suffixed(&m.id, "-max-online");
            r.push(c2);
            r.push(c3);
            assert(texts(r@) =~= texts(prev) + seq![c0@, c1@, c2@, c3@]);
            assert(ids_of(m.id@, m.is_max) =~= seq![c0@, c1@, c2@, c3@]);
        } else {
            assert(texts(r@) =~= texts(prev) + seq![c0@, c1@]);
            assert(ids_of(m.id@, m.is_max) =~= seq![c0@, c1@]);
        }
        assert(ad.take(k as int + 1).drop_last() =~= ad.take(k as int));
        assert(ad.take(k as int + 1).last() == model_view(added@[k as int]));
        k = k + 1;
    }
    assert(ad.take(added.len() as int) =~= ad);
    r
}

/// The texts of a list of string slices.
pub open spec fn strs(v: Seq<&str>) -> Seq<Seq<char>> {
    v.map_values(|x: &str| x@)
}

/// `id` is one of the texts of `l`.
pub open spec fn listed(id: Seq<char>, l: Seq<Seq<char>>) -> bool {
    exists|i: int| 0 <= i < l.len() && #[trigger] l[i] == id
}

/// Whether `id` is one of the entries of `list`.
pub(crate) fn is_listed<const N: usize>(id: &str, list: &[&str; N]) -> (r: bool)
    ensures
        r == listed(id@, strs(list@)),
{
    let mut i: usize = 0;
    while i < N
        invariant
            i <= N,
            list@.len() == N,
            forall|j: int| 0 <= j < i ==> strs(list@)[j] != id@,
        decreases N - i,
    {
        if str_eq(list[i], id) {
            assert(strs(list@)[i as int] == id@);
            return true;
        }
        i = i + 1;
    }
    false
}

/// The models that support thinking.
pub open spec fn thinking_models() -> Seq<Seq<char>> {
    seq!["o3"@, "gemini-2.5-pro-preview-05-06"@, "gemini-2.5-flash-preview-05-20"@, "o4-mini"@, "deepseek-r1-0528"@, "grok-4"@, "o3-pro"@]
}

/// The models that support thinking.
fn thinking_list() -> (r: [&'static str; 7])
    ensures
        strs(r@) == thinking_models(),
{
    let r = ["o3", "gemini-2.5-pro-preview-05-06", "gemini-2.5-flash-preview-05-20", "o4-mini", "deepseek-r1-0528", "grok-4", "o3-pro"];
    assert(strs(r@) =~= thinking_models());
    r
}

/// The models that accept images.
pub open spec fn image_models() -> Seq<Seq<char>> {
    seq!["default"@, "o3"@, "gemini-2.5-pro-preview-05-06"@, "gemini-2.5-flash-preview-05-20"@, "gpt-4.1"@, "gemini-2.5-pro-exp-03-25"@, "gpt-4o"@, "o4-mini"@, "grok-4"@, "o3-pro"@]
}

/// The models that accept images.
fn image_list() -> (r: [&'static str; 10])
    ensures
        strs(r@) == image_models(),
{
    let r = ["default", "o3", "gemini-2.5-pro-preview-05-06", "gemini-2.5-flash-preview-05-20", "gpt-4.1", "gemini-2.5-pro-exp-03-25", "gpt-4o", "o4-mini", "grok-4", "o3-pro"];
    assert(strs(r@) =~= image_models());
    r
}

/// The models that run both with and without max mode.
pub open spec fn supported_max_models() -> Seq<Seq<char>> {
    seq!["o3"@, "gemini-2.5-pro-preview-05-06"@, "gemini-2.5-flash-preview-05-20"@, "gpt-4.1"@, "gemini-2.5-pro-exp-03-25"@, "o4-mini"@, "grok-3-beta"@, "grok-4"@]
}

/// The models that run both with and without max mode.
fn supported_max_list() -> (r: [&'static str; 8])
    ensures
        strs(r@) == supported_max_models(),
{
    let r = ["o3", "gemini-2.5-pro-preview-05-06", "gemini-2.5-flash-preview-05-20", "gpt-4.1", "gemini-2.5-pro-exp-03-25", "o4-mini", "grok-3-beta", "grok-4"];
    assert(strs(r@) =~= supported_max_models());
    r
}

/// The models that run only in max mode.
pub open spec fn max_only_models() -> Seq<Seq<char>> {
    seq!["o3-pro"@]
}

/// The models that run only in max mode.
fn max_only_list() -> (r: [&'static str; 1])
    ensures
        strs(r@) == max_only_models(),
{
    let r = ["o3-pro"];
    assert(strs(r@) =~= max_only_models());
    r
}

/// The models whose use is free (not counted against a quota).
pub open spec fn free_models() -> Seq<Seq<char>> {
    seq!["gpt-4o-mini"@, "cursor-fast"@, "cursor-small"@, "deepseek-v3"@, "deepseek-v3.1"@, "grok-3-mini"@]
}

/// The models whose use is free (not counted against a quota).
pub(crate) fn free_list() -> (r: [&'static str; 6])
    ensures
        strs(r@) == free_models(),
{
    let r = ["gpt-4o-mini", "cursor-fast", "cursor-small", "deepseek-v3", "deepseek-v3.1", "grok-3-mini"];
    assert(strs(r@) =~= free_models());
    r
}

/// A built-in model with the given ids and owner; what it supports comes
/// from the model lists.
pub open spec fn default_entry(id: Seq<char>, client: Seq<char>, server: Seq<char>, owner: Seq<char>) -> ModelView {
    ModelView {
        id: id,
        client_id: client,
        server_id: server,
        owned_by: owner,
        is_thinking: listed(id, thinking_models()),
        is_image: listed(id, image_models()),
        is_max: listed(id, supported_max_models()) || listed(id, max_only_models()),
        is_non_max: !listed(id, max_only_models()),
    }
}

/// The built-in models: client id, display id, upstream id and owner.
pub open spec fn default_table() -> Seq<(Seq<char>, Seq<char>, Seq<char>, Seq<char>)> {
    seq![
        ("default"@, "default"@, "default"@, "default"@),
        ("cursor-small"@, "cursor-small"@, "cursor-small"@, "cursor"@),
        ("cursor-fast"@, "cursor-fast"@, "cursor-fast"@, "cursor"@),
        ("gemini-2.5-pro-preview-05-06"@, "gemini-2.5-pro"@, "gemini-2.5-pro-latest"@, "google"@),
        ("gemini-2.5-pro"@, "gemini-2.5-pro"@, "gemini-2.5-pro"@, "google"@),
        ("gemini-2.5-pro-latest"@, "gemini-2.5-pro-latest"@, "gemini-2.5-pro-latest"@, "google"@),
        ("gemini-2.5-flash-preview-05-20"@, "gemini-2.5-flash"@, "gemini-2.5-flash-latest"@, "google"@),
        ("gemini-2.5-flash"@, "gemini-2.5-flash"@, "gemini-2.5-flash"@, "google"@),
        ("gemini-2.5-flash-latest"@, "gemini-2.5-flash-latest"@, "gemini-2.5-flash-latest"@, "google"@),
        ("gemini-2.5-pro-exp-03-25"@, "gemini-2.5-pro-exp-03-25"@, "gemini-2.5-pro-exp-03-25"@, "google"@),
        ("gemini-2.5-flash-preview-04-17"@, "gemini-2.5-flash-preview-04-17"@, "gemini-2.5-flash-preview-04-17"@, "google"@),
        ("gemini-2.5-pro-max"@, "gemini-2.5-pro-max"@, "gemini-2.5-pro-max"@, "google"@),
        ("gemini-2.0-flash-thinking-exp"@, "gemini-2.0-flash-thinking-exp"@, "gemini-2.0-flash-thinking-exp"@, "google"@),
        ("gemini-2.0-flash"@, "gemini-2.0-flash"@, "gemini-2.0-flash"@, "google"@),
        ("gemini-1.5-flash-500k"@, "gemini-1.5-flash-500k"@, "gemini-1.5-flash-500k"@, "google"@),
        ("o3"@, "o3"@, "o3"@, "openai"@),
        ("gpt-4.1"@, "gpt-4.1"@, "gpt-4.1"@, "openai"@),
        ("gpt-4o"@, "gpt-4o"@, "gpt-4o"@, "openai"@),
        ("o4-mini"@, "o4-mini"@, "o4-mini"@, "openai"@),
        ("o3-pro"@, "o3-pro"@, "o3-pro"@, "openai"@),
        ("gpt-4"@, "gpt-4"@, "gpt-4"@, "openai"@),
        ("gpt-4.5-preview"@, "gpt-4.5-preview"@, "gpt-4.5-preview"@, "openai"@),
        ("gpt-4-turbo-2024-04-09"@, "gpt-4-turbo-2024-04-09"@, "gpt-4-turbo-2024-04-09"@, "openai"@),
        ("gpt-4o-mini"@, "gpt-4o-mini"@, "gpt-4o-mini"@, "openai"@),
        ("o1-mini"@, "o1-mini"@, "o1-mini"@, "openai"@),
        ("o1-preview"@, "o1-preview"@, "o1-preview"@, "openai"@),
        ("o1"@, "o1"@, "o1"@, "openai"@),
        ("o3-mini"@, "o3-mini"@, "o3-mini"@, "openai"@),
        ("gpt-4o-128k"@, "gpt-4o-128k"@, "gpt-4o-128k"@, "openai"@),
        ("deepseek-r1-0528"@, "deepseek-r1-0528"@, "deepseek-r1-0528"@, "deepseek"@),
        ("deepseek-v3.1"@, "deepseek-v3.1"@, "deepseek-v3.1"@, "deepseek"@),
        ("deepseek-r1"@, "deepseek-r1"@, "deepseek-r1"@, "deepseek"@),
        ("deepseek-v3"@, "deepseek-v3"@, "deepseek-v3"@, "deepseek"@),
        ("grok-3-beta"@, "grok-3"@, "grok-3-beta"@, "xai"@),
        ("grok-3"@, "grok-3"@, "grok-3"@, "xai"@),
        ("grok-3-mini"@, "grok-3-mini"@, "grok-3-mini"@, "xai"@),
        ("grok-4"@, "grok-4"@, "grok-4-0709"@, "xai"@),
        ("grok-2"@, "grok-2"@, "grok-2"@, "xai"@),
        ("kimi-k2-instruct"@, "kimi-k2-instruct"@, "accounts/fireworks/models/kimi-k2-instruct"@, "moonshotai"@),
    ]
}

/// The built-in models.
pub open spec fn default_models() -> Seq<ModelView> {
    default_table().map_values(
        |e: (Seq<char>, Seq<char>, Seq<char>, Seq<char>)| default_entry(e.0, e.1, e.2, e.3),
    )
}

/// The ids under which clients may ask for the built-in models: each id and
/// its `-online` form, and the `-max` forms for models that run both with and
/// without max mode.
pub open spec fn initial_ids(ms: Seq<ModelView>) -> Seq<Seq<char>>
    decreases ms.len(),
{
    if ms.len() == 0 {
        Seq::empty()
    } else {
        initial_ids(ms.drop_last()) + ids_of(ms.last().id, ms.last().is_max && ms.last().is_non_max)
    }
}

/// A built-in model (see `default_entry`).
fn make_model(id: &str, client: &str, server: &str, owner: &'static str) -> (r: Model)
    ensures
        model_view(r) == default_entry(id@, client@, server@, owner@),
{
    let is_thinking = is_listed(id, &thinking_list());
    let is_image = is_listed(id, &image_list());
    let max_only = is_listed(id, &max_only_list());
    let is_max = is_listed(id, &supported_max_list()) || max_only;
    Model {
        id: id.to_owned(),
        client_id: client.to_owned(),
        server_id: server.to_owned(),
        owned_by: owner,
        is_thinking,
        is_image,
        is_max,
        is_non_max: !max_only,
    }
}

/// The registry of models: the known models and the ids under which clients
/// may ask for them.
pub struct Models {
    pub models: Vec<Model>,
    pub cached_ids: Vec<String>,
    /// The last model list fetched from the server, as it came.
    pub raw_models: Option<Vec<AvailableModel>>,
}

/// The index of the last model in `vs` with client id `id`.
pub open spec fn last_index_of(vs: Seq<ModelView>, id: Seq<char>) -> int {
    choose|i: int| 0 <= i < vs.len() && vs[i].id == id && forall|j: int| i < j < vs.len() ==> #[trigger] vs[j].id != id
}

impl Models {
    /// The registry of the built-in models.
    #[verifier::rlimit(60)]
    pub fn new() -> (r: Models)
        ensures
            views(r.models@) == default_models(),
            texts(r.cached_ids@) == initial_ids(default_models()),
            r.raw_models is None,
    {
        let table: [(&'static str, &'static str, &'static str, &'static str); 39] = [
        ("default", "default", "default", "default"),
        ("cursor-small", "cursor-small", "cursor-small", "cursor"),
        ("cursor-fast", "cursor-fast", "cursor-fast", "cursor"),
        ("gemini-2.5-pro-preview-05-06", "gemini-2.5-pro", "gemini-2.5-pro-latest", "google"),
        ("gemini-2.5-pro", "gemini-2.5-pro", "gemini-2.5-pro", "google"),
        ("gemini-2.5-pro-latest", "gemini-2.5-pro-latest", "gemini-2.5-pro-latest", "google"),
        ("gemini-2.5-flash-preview-05-20", "gemini-2.5-flash", "gemini-2.5-flash-latest", "google"),
        ("gemini-2.5-flash", "gemini-2.5-flash", "gemini-2.5-flash", "google"),
        ("gemini-2.5-flash-latest", "gemini-2.5-flash-latest", "gemini-2.5-flash-latest", "google"),
        ("gemini-2.5-pro-exp-03-25", "gemini-2.5-pro-exp-03-25", "gemini-2.5-pro-exp-03-25", "google"),
        ("gemini-2.5-flash-preview-04-17", "gemini-2.5-flash-preview-04-17", "gemini-2.5-flash-preview-04-17", "google"),
        ("gemini-2.5-pro-max", "gemini-2.5-pro-max", "gemini-2.5-pro-max", "google"),
        ("gemini-2.0-flash-thinking-exp", "gemini-2.0-flash-thinking-exp", "gemini-2.0-flash-thinking-exp", "google"),
        ("gemini-2.0-flash", "gemini-2.0-flash", "gemini-2.0-flash", "google"),
        ("gemini-1.5-flash-500k", "gemini-1.5-flash-500k", "gemini-1.5-flash-500k", "google"),
        ("o3", "o3", "o3", "openai"),
        ("gpt-4.1", "gpt-4.1", "gpt-4.1", "openai"),
        ("gpt-4o", "gpt-4o", "gpt-4o", "openai"),
        ("o4-mini", "o4-mini", "o4-mini", "openai"),
        ("o3-pro", "o3-pro", "o3-pro", "openai"),
        ("gpt-4", "gpt-4", "gpt-4", "openai"),
        ("gpt-4.5-preview", "gpt-4.5-preview", "gpt-4.5-preview", "openai"),
        ("gpt-4-turbo-2024-04-09", "gpt-4-turbo-2024-04-09", "gpt-4-turbo-2024-04-09", "openai"),
        ("gpt-4o-mini", "gpt-4o-mini", "gpt-4o-mini", "openai"),
        ("o1-mini", "o1-mini", "o1-mini", "openai"),
        ("o1-preview", "o1-preview", "o1-preview", "openai"),
        ("o1", "o1", "o1", "openai"),
        ("o3-mini", "o3-mini", "o3-mini", "openai"),
        ("gpt-4o-128k", "gpt-4o-128k", "gpt-4o-128k", "openai"),
        ("deepseek-r1-0528", "deepseek-r1-0528", "deepseek-r1-0528", "deepseek"),
        ("deepseek-v3.1", "deepseek-v3.1", "deepseek-v3.1", "deepseek"),
        ("deepseek-r1", "deepseek-r1", "deepseek-r1", "deepseek"),
        ("deepseek-v3", "deepseek-v3", "deepseek-v3", "deepseek"),
        ("grok-3-beta", "grok-3", "grok-3-beta", "xai"),
        ("grok-3", "grok-3", "grok-3", "xai"),
        ("grok-3-mini", "grok-3-mini", "grok-3-mini", "xai"),
        ("grok-4", "grok-4", "grok-4-0709", "xai"),
        ("grok-2", "grok-2", "grok-2", "xai"),
        ("kimi-k2-instruct", "kimi-k2-instruct", "accounts/fireworks/models/kimi-k2-instruct", "moonshotai"),
    ];
        let ghost tv = table@.map_values(|e: (&str, &str, &str, &str)| (e.0@, e.1@, e.2@, e.3@));
        assert(tv =~= default_table());
        let mut models: Vec<Model> = Vec::new();
        let mut i: usize = 0;
        while i < 39
            invariant
                i <= 39,
                table@.len() == 39,
                tv == table@.map_values(|e: (&str, &str, &str, &str)| (e.0@, e.1@, e.2@, e.3@)),
                tv == default_table(),
                views(models@) == default_models().take(i as int),
            decreases 39 - i,
        {
            let e = table[i];
            let ghost prev = models@;
            models.push(make_model(e.0, e.1, e.2, e.3));
            assert(tv[i as int] == (e.0@, e.1@, e.2@, e.3@));
            assert(views(models@) =~= views(prev).push(default_entry(e.0@, e.1@, e.2@, e.3@)));
            assert(default_models().take(i as int + 1) =~= default_models().take(i as int).push(default_models()[i as int]));
            i = i + 1;
        }
        assert(default_models().take(39) =~= default_models());
        let ghost ms = views(models@);
        let mut ids: Vec<String> = Vec::new();
        let mut k: usize = 0;
        while k < models.len()
            invariant
                k <= models.len(),
                ms == views(models@),
                texts(ids@) == initial_ids(ms.take(k as int)),
            decreases models.len() - k,
        {
            let m = &models[k];
            let ghost prev = ids@;
            let c0 = m.id.clone();
            let c1 = suffixed(&m.id, "-online");
            ids.push(c0);
            ids.push(c1);
            if m.is_max && m.is_non_max {
                let c2 = suffixed(&m.id, "-max");
                let c3 = suffixed(&m.id, "-max-online");
                ids.push(c2);
                ids.push(c3);
                assert(texts(ids@) =~= texts(prev) + seq![c0@, c1@, c2@, c3@]);
                assert(ids_of(m.id@, true) =~= seq![c0@, c1@, c2@, c3@]);
            } else {
                assert(texts(ids@) =~= texts(prev) + seq![c0@, c1@]);
                assert(ids_of(m.id@, false) =~= seq![c0@, c1@]);
            }
            assert(ms.take(k as int + 1).drop_last() =~= ms.take(k as int));
            assert(ms.take(k as int + 1).last() == model_view(models@[k as int]));
            k = k + 1;
        }
        assert(ms.take(models.len() as int) =~= ms);
        Models { models, cached_ids: ids, raw_models: None }
    }

    /// The last known model with client id `id` (a later entry shadows an
    /// earlier one with the same id).
    pub fn find_id(&self, id: &str) -> (r: Option<&Model>)
        ensures
            r is Some <==> contains_id(views(self.models@), id@),
            r matches Some(m) ==> 0 <= last_index_of(views(self.models@), id@) < self.models@.len() && *m
                == self.models@[last_index_of(views(self.models@), id@)],
    {
        let ghost vs = views(self.models@);
        let mut i: usize = self.models.len();
        while i > 0
            invariant
                i <= self.models.len(),
                vs == views(self.models@),
                forall|j: int| i <= j < self.models.len() ==> #[trigger] vs[j].id != id@,
            decreases i,
        {
            i = i - 1;
            if str_eq(self.models[i].id.as_str(), id) {
                assert(vs[i as int].id == id@);
                assert(forall|j: int| i < j < vs.len() ==> #[trigger] vs[j].id != id@);
                assert(0 <= i < vs.len() && vs[i as int].id == id@ && forall|j: int| i < j < vs.len() ==> #[trigger] vs[j].id != id@);
                let ghost k = last_index_of(vs, id@);
                assert(k == i as int) by {
                    if k < i {
                        assert(vs[i as int].id != id@);
                    } else if k > i {
                        assert(vs[k].id != id@);
                    }
                }
                return Some(&self.models[i]);
            }
        }
        None
    }

    /// The ids under which clients may ask for the known models.
    pub fn ids(&self) -> (r: &Vec<String>)
        ensures
            r == &self.cached_ids,
    {
        &self.cached_ids
    }

    /// The last model list fetched from the server, when one was stored.
    pub fn raw_list(&self) -> (r: Option<&Vec<AvailableModel>>)
        ensures
            (match self.raw_models {
                Some(v) => r == Some(&v),
                None => r is None,
            }),
    {
        match &self.raw_models {
            Some(v) => Some(v),
            None => None,
        }
    }

    /// Merges a fetched model list into the registry. An empty list is
    /// refused and leaves the registry as it was. A non-empty list is stored
    /// as the raw list; then nothing else changes while updates are
    /// `throttled` (the list was updated less than thirty minutes ago, after
    /// the first thirty minutes of running), nor when the merged list holds
    /// the same entries as before; otherwise the models become the merged
    /// list and the cached ids of removed models are dropped and those of
    /// added models appended.
    pub fn update(&mut self, available: Vec<AvailableModel>, mode: FetchMode, throttled: bool) -> (r: Result<(), &'static str>)
        ensures
            available.len() == 0 ==> (r matches Err(e) && e@ == "Models list cannot be empty"@
                && final(self).raw_models == old(self).raw_models),
            available.len() > 0 ==> (r is Ok && final(self).raw_models == Some(available)),
            ({
                let new = merged(views(old(self).models@), available@, mode);
                if available.len() > 0 && !throttled && !same_views(views(old(self).models@), new) {
                    &&& views(final(self).models@) == new
                    &&& texts(final(self).cached_ids@) == updated_ids(texts(old(self).cached_ids@), views(old(self).models@), new)
                } else {
                    &&& final(self).models@ == old(self).models@
                    &&& final(self).cached_ids@ == old(self).cached_ids@
                }
            }),
    {
        if available.len() == 0 {
            return Err("Models list cannot be empty");
        }
        if throttled {
            self.raw_models = Some(available);
            return Ok(());
        }
        let new_models = merge_models(&self.models, &available, mode);
        if same_models(&self.models, &new_models) {
            self.raw_models = Some(available);
            return Ok(());
        }
        let cached = update_cached_ids(&self.cached_ids, &self.models, &new_models);
        self.models = new_models;
        self.cached_ids = cached;
        self.raw_models = Some(available);
        Ok(())
    }
}

/// Keeping the unnamed models of a concatenation keeps them of each part.
proof fn lemma_keep_unnamed_concat(a: Seq<ModelView>, b: Seq<ModelView>, inc: Seq<AvailableModel>)
    ensures
        keep_unnamed(a + b, inc) == keep_unnamed(a, inc) + keep_unnamed(b, inc),
    decreases b.len(),
{
    if b.len() == 0 {
        assert(a + b =~= a);
        assert(keep_unnamed(a, inc) + Seq::<ModelView>::empty() =~= keep_unnamed(a, inc));
    } else {
        lemma_keep_unnamed_concat(a, b.drop_last(), inc);
        assert((a + b).drop_last() =~= a + b.drop_last());
        assert((a + b).last() == b.last());
        let r = keep_unnamed(a, inc) + keep_unnamed(b.drop_last(), inc);
        assert(r.push(b.last()) =~= keep_unnamed(a, inc) + keep_unnamed(b.drop_last(), inc).push(b.last()));
    }
}

/// A list in which every model is named keeps nothing; a list in which none
/// is named keeps everything.
proof fn lemma_keep_unnamed_all_or_none(x: Seq<ModelView>, inc: Seq<AvailableModel>)
    ensures
        (forall|i: int| 0 <= i < x.len() ==> names_contain(inc, #[trigger] x[i].id)) ==> keep_unnamed(x, inc)
            == Seq::<ModelView>::empty(),
        (forall|i: int| 0 <= i < x.len() ==> !names_contain(inc, #[trigger] x[i].id)) ==> keep_unnamed(x, inc)
            == x,
    decreases x.len(),
{
    if x.len() > 0 {
        let y = x.drop_last();
        lemma_keep_unnamed_all_or_none(y, inc);
        if forall|i: int| 0 <= i < x.len() ==> names_contain(inc, #[trigger] x[i].id) {
            assert forall|i: int| 0 <= i < y.len() implies names_contain(inc, #[trigger] y[i].id) by {
                assert(y[i] == x[i]);
            }
            assert(names_contain(inc, x[x.len() - 1].id));
        }
        if forall|i: int| 0 <= i < x.len() ==> !names_contain(inc, #[trigger] x[i].id) {
            assert forall|i: int| 0 <= i < y.len() implies !names_contain(inc, #[trigger] y[i].id) by {
                assert(y[i] == x[i]);
            }
            assert(!names_contain(inc, x[x.len() - 1].id));
            assert(y.push(x.last()) =~= x);
        }
    }
}

/// No kept model is named.
proof fn lemma_keep_unnamed_unnamed(c: Seq<ModelView>, inc: Seq<AvailableModel>)
    ensures
        forall|i: int| 0 <= i < keep_unnamed(c, inc).len() ==> !names_contain(inc, #[trigger] keep_unnamed(c, inc)[i].id),
    decreases c.len(),
{
    if c.len() > 0 {
        lemma_keep_unnamed_unnamed(c.drop_last(), inc);
        let r = keep_unnamed(c.drop_last(), inc);
        assert forall|i: int| 0 <= i < keep_unnamed(c, inc).len() implies !names_contain(inc, #[trigger] keep_unnamed(c, inc)[i].id) by {
            if i < r.len() {
                assert(keep_unnamed(c, inc)[i] == r[i]);
            }
        }
    }
}

/// Every converted entry is named by its upstream entry.
proof fn lemma_convert_all_named(inc: Seq<AvailableModel>)
    ensures
        forall|i: int| 0 <= i < convert_all(inc).len() ==> names_contain(inc, #[trigger] convert_all(inc)[i].id),
{
    assert forall|i: int| 0 <= i < convert_all(inc).len() implies names_contain(inc, #[trigger] convert_all(inc)[i].id) by {
        assert(convert_all(inc)[i] == converted(inc[i]));
        assert(inc[i].name@ == convert_all(inc)[i].id);
    }
}

/// After an append, every fetched name is a known id.
proof fn lemma_converted_new_covers(inc: Seq<AvailableModel>, cur: Seq<ModelView>)
    ensures
        forall|k: int| 0 <= k < inc.len() ==> contains_id(cur + converted_new(inc, cur), #[trigger] inc[k].name@),
    decreases inc.len(),
{
    if inc.len() > 0 {
        let j = inc.drop_last();
        lemma_converted_new_covers(j, cur);
        let r = converted_new(j, cur);
        let x = cur + converted_new(inc, cur);
        let added = contains_id(cur, inc.last().name@);
        if added {
            assert(converted_new(inc, cur) == r);
            assert(x =~= cur + r);
        } else {
            assert(converted_new(inc, cur) == r.push(converted(inc.last())));
            assert(x =~= (cur + r).push(converted(inc.last())));
        }
        assert forall|k: int| 0 <= k < inc.len() implies contains_id(x, #[trigger] inc[k].name@) by {
            if k < j.len() {
                assert(j[k] == inc[k]);
                assert(contains_id(cur + r, j[k].name@));
                let w = choose|w: int| 0 <= w < (cur + r).len() && #[trigger] (cur + r)[w].id == j[k].name@;
                assert(x[w] == (cur + r)[w]);
                assert(x[w].id == inc[k].name@);
            } else {
                assert(inc[k] == inc.last());
                if added {
                    let w = choose|w: int| 0 <= w < cur.len() && #[trigger] cur[w].id == inc.last().name@;
                    assert(x[w] == cur[w]);
                    assert(x[w].id == inc[k].name@);
                } else {
                    assert(x[x.len() - 1] == converted(inc.last()));
                    assert(x[x.len() - 1].id == inc[k].name@);
                }
            }
        }
    }
}

/// When every fetched name is a known id, an append adds nothing.
proof fn lemma_converted_new_empty(inc: Seq<AvailableModel>, x: Seq<ModelView>)
    requires
        forall|k: int| 0 <= k < inc.len() ==> contains_id(x, #[trigger] inc[k].name@),
    ensures
        converted_new(inc, x) == Seq::<ModelView>::empty(),
    decreases inc.len(),
{
    if inc.len() > 0 {
        let j = inc.drop_last();
        assert forall|k: int| 0 <= k < j.len() implies contains_id(x, #[trigger] j[k].name@) by {
            assert(j[k] == inc[k]);
        }
        lemma_converted_new_empty(j, x);
        assert(contains_id(x, inc[inc.len() - 1].name@));
    }
}

/// Merging the same fetched list a second time changes nothing: the merge
/// is idempotent in every mode, so a repeated update leaves the registry as
/// it is.
pub proof fn lemma_merge_idempotent(cur: Seq<ModelView>, inc: Seq<AvailableModel>, mode: FetchMode)
    ensures
        merged(merged(cur, inc, mode), inc, mode) == merged(cur, inc, mode),
        same_views(merged(cur, inc, mode), merged(merged(cur, inc, mode), inc, mode)),
{
    let x = merged(cur, inc, mode);
    match mode {
        FetchMode::Truncate => {},
        FetchMode::AppendTruncate => {
            let k = keep_unnamed(cur, inc);
            let conv = convert_all(inc);
            lemma_keep_unnamed_concat(k, conv, inc);
            lemma_keep_unnamed_unnamed(cur, inc);
            lemma_keep_unnamed_all_or_none(k, inc);
            lemma_convert_all_named(inc);
            lemma_keep_unnamed_all_or_none(conv, inc);
            assert(keep_unnamed(k, inc) + Seq::<ModelView>::empty() =~= k);
        },
        FetchMode::Append => {
            lemma_converted_new_covers(inc, cur);
            lemma_converted_new_empty(inc, x);
            assert(x + Seq::<ModelView>::empty() =~= x);
        },
    }
}

} // verus!
