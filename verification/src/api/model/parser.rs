//! Reading the model that a request names: the `-online` and `-max`
//! suffixes, and whether a request's usage is checked.
use vstd::prelude::*;

use crate::api::constant::{Models, contains_id, free_list, free_models, is_listed, last_index_of, listed, texts, views};
use crate::api::model::ModelView;
use crate::common::model::config::UsageCheck;
use crate::text::{contains_str, has_infix, has_prefix, has_suffix, starts_with, str_eq, strip_suffix};

verus! {

/// The model a request asks for, with its options.
pub struct ExtModel {
    /// The upstream id of the model.
    pub id: String,
    pub is_image: bool,
    pub is_thinking: bool,
    /// Whether web search is on (`-online`).
    pub web: bool,
    /// Whether max mode is on (`-max`, or a model that runs only in max mode).
    pub max: bool,
}

/// What a requested model stands for.
pub struct ExtModelView {
    pub id: Seq<char>,
    pub is_image: bool,
    pub is_thinking: bool,
    pub web: bool,
    pub max: bool,
}

pub open spec fn ext_view(m: ExtModel) -> ExtModelView {
    ExtModelView { id: m.id@, is_image: m.is_image, is_thinking: m.is_thinking, web: m.web, max: m.max }
}

/// Whether an unknown model id looks like a thinking model: it contains
/// `-thinking`, or is `o` followed by a digit, or starts with `gemini-2.5-`,
/// `deepseek-r1` or `grok-4`.
pub open spec fn guessed_thinking(id: Seq<char>) -> bool {
    has_infix(id, "-thinking"@) || (id.len() >= 2 && id[0] == 'o' && '0' <= id[1] && id[1] <= '9')
        || has_prefix(id, "gemini-2.5-"@) || has_prefix(id, "deepseek-r1"@) || has_prefix(id, "grok-4"@)
}

/// `s` without the suffix `p` when it has it.
pub open spec fn without_suffix(s: Seq<char>, p: Seq<char>) -> Seq<char> {
    if has_suffix(s, p) {
        s.subrange(0, s.len() - p.len())
    } else {
        s
    }
}

/// The model that the name `s` asks for among the known models `ms`: a
/// trailing `-online` turns web search on; a known id gives that model, in max
/// mode when it runs only in max mode; else a trailing `-max` on a known id of
/// a model with a max mode gives that model in max mode; else, when model
/// names are not checked (`bypass`), any non-empty name is taken as it is.
pub open spec fn ext_model_named(s: Seq<char>, ms: Seq<ModelView>, bypass: bool) -> Option<ExtModelView> {
    let web = has_suffix(s, "-online"@);
    let base = without_suffix(s, "-online"@);
    if contains_id(ms, base) {
        let raw = ms[last_index_of(ms, base)];
        Some(ExtModelView { id: raw.server_id, is_image: raw.is_image, is_thinking: raw.is_thinking, web, max: !raw.is_non_max })
    } else {
        let max = has_suffix(base, "-max"@);
        let model = without_suffix(base, "-max"@);
        if max && contains_id(ms, model) && ms[last_index_of(ms, model)].is_max {
            let raw = ms[last_index_of(ms, model)];
            Some(ExtModelView { id: raw.server_id, is_image: raw.is_image, is_thinking: raw.is_thinking, web, max })
        } else if bypass && model.len() > 0 {
            Some(ExtModelView { id: model, is_image: true, is_thinking: guessed_thinking(model), web, max })
        } else {
            None
        }
    }
}

/// Whether a request for model `id` has its usage checked under `check`.
pub open spec fn usage_checked(id: Seq<char>, check: UsageCheck) -> bool {
    match check {
        UsageCheck::Disabled => false,
        UsageCheck::Default => !listed(id, free_models()),
        UsageCheck::All => true,
        UsageCheck::Custom(models) => listed(id, texts(models@)),
    }
}

/// Whether `id` looks like a thinking model (see `guessed_thinking`).
fn guess_thinking(id: &str) -> (r: bool)
    ensures
        r == guessed_thinking(id@),
{
    if contains_str(id, "-thinking") {
        return true;
    }
    let n = id.unicode_len();
    if n >= 2 {
        let c0 = id.get_char(0);
        let c1 = id.get_char(1);
        if c0 == 'o' && '0' <= c1 && c1 <= '9' {
            return true;
        }
    }
    starts_with(id, "gemini-2.5-") || starts_with(id, "deepseek-r1") || starts_with(id, "grok-4")
}

/// `s` without the suffix `p` when it has it, and whether it had it.
fn split_suffix<'a>(s: &'a str, p: &str) -> (r: (&'a str, bool))
    ensures
        r.0@ == without_suffix(s@, p@),
        r.1 == has_suffix(s@, p@),
{
    match strip_suffix(s, p) {
        Some(base) => (base, true),
        None => (s, false),
    }
}

impl ExtModel {
    /// The model that the name `s` asks for (see `ext_model_named`); `None`
    /// for a name that no known model answers to.
    pub fn from_str(s: &str, models: &Models, bypass: bool) -> (r: Option<ExtModel>)
        ensures
            (match r {
                Some(m) => ext_model_named(s@, views(models.models@), bypass) == Some(ext_view(m)),
                None => ext_model_named(s@, views(models.models@), bypass) is None,
            }),
    {
        let ghost ms = views(models.models@);
        let (base, web) = split_suffix(s, "-online");
        match models.find_id(base) {
            Some(raw) => {
                assert(ms[last_index_of(ms, base@)] == crate::api::model::model_view(*raw));
                return Some(
                    ExtModel {
                        id: raw.server_id.clone(),
                        is_image: raw.is_image,
                        is_thinking: raw.is_thinking,
                        web,
                        max: !raw.is_non_max,
                    },
                );
            },
            None => {},
        }
        let (model, max) = split_suffix(base, "-max");
        if max {
            match models.find_id(model) {
                Some(raw) => {
                    assert(ms[last_index_of(ms, model@)] == crate::api::model::model_view(*raw));
                    if raw.is_max {
                        return Some(
                            ExtModel {
                                id: raw.server_id.clone(),
                                is_image: raw.is_image,
                                is_thinking: raw.is_thinking,
                                web,
                                max,
                            },
                        );
                    }
                },
                None => {},
            }
        }
        if bypass && model.unicode_len() > 0 {
            return Some(
                ExtModel {
                    id: model.to_owned(),
                    is_image: true,
                    is_thinking: guess_thinking(model),
                    web,
                    max,
                },
            );
        }
        None
    }

    /// Whether this request's usage is checked: by the request's own rule
    /// when it has one, else by the service-wide rule `global`.
    pub fn is_usage_check(&self, usage_check: Option<UsageCheck>, global: UsageCheck) -> (r: bool)
        ensures
            r == usage_checked(self.id@, match usage_check {
                Some(c) => c,
                None => global,
            }),
    {
        let check = match usage_check {
            Some(c) => c,
            None => global,
        };
        match check {
            UsageCheck::Disabled => false,
            UsageCheck::Default => !is_free(self.id.as_str()),
            UsageCheck::All => true,
            UsageCheck::Custom(models) => {
                let mut i: usize = 0;
                while i < models.len()
                    invariant
                        i <= models.len(),
                        (match usage_check {
                            Some(c) => c,
                            None => global,
                        }) == UsageCheck::Custom(models),
                        forall|j: int| 0 <= j < i ==> #[trigger] models@[j]@ != self.id@,
                    decreases models.len() - i,
                {
                    if str_eq(models[i].as_str(), self.id.as_str()) {
                        assert(texts(models@)[i as int] == self.id@);
                        assert(listed(self.id@, texts(models@)));
                        return true;
                    }
                    i = i + 1;
                }
                assert forall|j: int| 0 <= j < models@.len() implies #[trigger] texts(models@)[j] != self.id@ by {
                    assert(models@[j]@ != self.id@);
                }
                false
            },
        }
    }
}

/// Whether `id` is a free model.
fn is_free(id: &str) -> (r: bool)
    ensures
        r == listed(id@, free_models()),
{
    is_listed(id, &free_list())
}

} // verus!
