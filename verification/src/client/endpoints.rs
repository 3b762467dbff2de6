//! The request behind each API operation: method, path, query and body.
use super::{ApiRequest, HttpMethod, LocoClient, RequestBody};
use crate::models::{asset_form, CreateAssetRequest};
use crate::text::{
    concat2, concat3, concat4, lemma_param_values_concat, lemma_param_values_opt_pair, opt_as_str,
    opt_pair, opt_set,
    opt_str_view, opt_view, pairs_view, param_values, push_opt_pair, push_pair,
};
use vstd::prelude::*;

verus! {

/// Options of an export.
#[derive(Debug, Default)]
pub struct ExportParams {
    pub format: Option<String>,
    pub filter: Option<String>,
    pub status: Option<String>,
    pub index: Option<String>,
}

/// Options and contents of an import.
pub struct ImportParams<'a> {
    pub ext: &'a str,
    pub body: Vec<u8>,
    pub locale: Option<&'a str>,
    pub index: Option<&'a str>,
    pub format: Option<&'a str>,
    pub tag_new: Option<&'a str>,
    pub is_async: bool,
}

/// Query of an export: `format`, `filter` and `status` where present.
pub open spec fn export_query(p: ExportParams) -> Seq<(Seq<char>, Seq<char>)> {
    opt_pair("format"@, opt_view(p.format)) + opt_pair("filter"@, opt_view(p.filter)) + opt_pair(
        "status"@,
        opt_view(p.status),
    )
}

/// Query of an import: `locale`, `index`, `format`, `tag-new` where present,
/// then `async=1` for an asynchronous import.
pub open spec fn import_query(p: ImportParams) -> Seq<(Seq<char>, Seq<char>)> {
    opt_pair("locale"@, opt_str_view(p.locale)) + opt_pair("index"@, opt_str_view(p.index))
        + opt_pair("format"@, opt_str_view(p.format)) + opt_pair(
        "tag-new"@,
        opt_str_view(p.tag_new),
    ) + if p.is_async {
        seq![("async"@, "1"@)]
    } else {
        Seq::empty()
    }
}

/// A request without query.
pub open spec fn plain(r: ApiRequest, method: HttpMethod, url: Seq<char>) -> bool {
    r.method == method && r.url@ =~= url && r.query@.len() == 0
}

/// The query parameters of an export, in order.
fn export_query_pairs(p: &ExportParams) -> (res: Vec<(String, String)>)
    ensures
        pairs_view(res@) == export_query(*p),
{
    let mut q: Vec<(String, String)> = Vec::new();
    assert(pairs_view(q@) =~= Seq::empty());
    push_opt_pair(&mut q, "format", opt_as_str(&p.format));
    push_opt_pair(&mut q, "filter", opt_as_str(&p.filter));
    push_opt_pair(&mut q, "status", opt_as_str(&p.status));
    assert(pairs_view(q@) =~= export_query(*p));
    q
}

/// A list with the one pair `(name, value)`.
fn single_pair(name: &str, value: &str) -> (res: Vec<(String, String)>)
    ensures
        pairs_view(res@) == seq![(name@, value@)],
{
    let mut q: Vec<(String, String)> = Vec::new();
    assert(pairs_view(q@) =~= Seq::empty());
    push_pair(&mut q, name, value);
    assert(pairs_view(q@) =~= seq![(name@, value@)]);
    q
}

impl LocoClient {
    /// `GET /assets`, filtered by tag when a filter is given.
    pub fn list_assets_request(&self, filter: Option<&str>) -> (r: ApiRequest)
        ensures
            pairs_view(r.headers@) == self.identity_headers(),
            r.method == HttpMethod::Get,
            r.url@ == self.base() + "/assets"@,
            pairs_view(r.query@) == opt_pair("filter"@, opt_str_view(filter)),
            r.body is Empty,
    {
        let mut q: Vec<(String, String)> = Vec::new();
        assert(pairs_view(q@) =~= Seq::empty());
        push_opt_pair(&mut q, "filter", filter);
        assert(pairs_view(q@) =~= opt_pair("filter"@, opt_str_view(filter)));
        self.request(HttpMethod::Get, "/assets", q, RequestBody::Empty)
    }

    /// `GET /assets/{id}.json`.
    pub fn get_asset_request(&self, id: &str) -> (r: ApiRequest)
        ensures
            pairs_view(r.headers@) == self.identity_headers(),
            plain(r, HttpMethod::Get, self.base() + "/assets/"@ + id@ + ".json"@),
            r.body is Empty,
    {
        let path = concat3("/assets/", id, ".json");
        self.request(HttpMethod::Get, path.as_str(), Vec::new(), RequestBody::Empty)
    }

    /// `POST /assets` with the request's form fields.
    pub fn create_asset_request(&self, req: &CreateAssetRequest) -> (r: ApiRequest)
        ensures
            pairs_view(r.headers@) == self.identity_headers(),
            plain(r, HttpMethod::Post, self.base() + "/assets"@),
            r.body matches RequestBody::Form(f) && pairs_view(f@) == asset_form(*req),
    {
        self.request(HttpMethod::Post, "/assets", Vec::new(), RequestBody::Form(req.form_fields()))
    }

    /// `DELETE /assets/{id}.json`.
    pub fn delete_asset_request(&self, id: &str) -> (r: ApiRequest)
        ensures
            pairs_view(r.headers@) == self.identity_headers(),
            plain(r, HttpMethod::Delete, self.base() + "/assets/"@ + id@ + ".json"@),
            r.body is Empty,
    {
        let path = concat3("/assets/", id, ".json");
        self.request(HttpMethod::Delete, path.as_str(), Vec::new(), RequestBody::Empty)
    }

    /// `POST /assets/{id}/tags` with the form field `name`.
    pub fn tag_asset_request(&self, id: &str, tag: &str) -> (r: ApiRequest)
        ensures
            pairs_view(r.headers@) == self.identity_headers(),
            plain(r, HttpMethod::Post, self.base() + "/assets/"@ + id@ + "/tags"@),
            r.body matches RequestBody::Form(f) && pairs_view(f@) == seq![("name"@, tag@)],
    {
        let path = concat3("/assets/", id, "/tags");
        self.request(HttpMethod::Post, path.as_str(), Vec::new(), RequestBody::Form(single_pair("name", tag)))
    }

    /// `DELETE /assets/{id}/tags/{tag}.json`.
    pub fn untag_asset_request(&self, id: &str, tag: &str) -> (r: ApiRequest)
        ensures
            pairs_view(r.headers@) == self.identity_headers(),
            plain(r, HttpMethod::Delete, self.base() + "/assets/"@ + id@ + "/tags/"@ + tag@ + ".json"@),
            r.body is Empty,
    {
        let mut path = concat4("/assets/", id, "/tags/", tag);
        path.append(".json");
        self.request(HttpMethod::Delete, path.as_str(), Vec::new(), RequestBody::Empty)
    }

    /// `GET /auth/verify`.
    pub fn auth_verify_request(&self) -> (r: ApiRequest)
        ensures
            pairs_view(r.headers@) == self.identity_headers(),
            plain(r, HttpMethod::Get, self.base() + "/auth/verify"@),
            r.body is Empty,
    {
        self.request(HttpMethod::Get, "/auth/verify", Vec::new(), RequestBody::Empty)
    }

    /// `GET /export/locale/{locale}.{ext}` with the export options, `index`
    /// included.
    pub fn export_locale_request(&self, locale: &str, ext: &str, params: &ExportParams) -> (r: ApiRequest)
        ensures
            pairs_view(r.headers@) == self.identity_headers(),
            r.method == HttpMethod::Get,
            r.url@ == self.base() + "/export/locale/"@ + locale@ + "."@ + ext@,
            pairs_view(r.query@) == export_query(*params) + opt_pair("index"@, opt_view(params.index)),
            r.body is Empty,
    {
        let path = concat4("/export/locale/", locale, ".", ext);
        let mut q = export_query_pairs(params);
        push_opt_pair(&mut q, "index", opt_as_str(&params.index));
        self.request(HttpMethod::Get, path.as_str(), q, RequestBody::Empty)
    }

    /// `GET /export/archive/{ext}.zip` with the export options (no `index`).
    pub fn export_archive_request(&self, ext: &str, params: &ExportParams) -> (r: ApiRequest)
        ensures
            pairs_view(r.headers@) == self.identity_headers(),
            r.method == HttpMethod::Get,
            r.url@ == self.base() + "/export/archive/"@ + ext@ + ".zip"@,
            pairs_view(r.query@) == export_query(*params),
            r.body is Empty,
    {
        let path = concat3("/export/archive/", ext, ".zip");
        self.request(HttpMethod::Get, path.as_str(), export_query_pairs(params), RequestBody::Empty)
    }

    /// `GET /export/all.{ext}` with the export options (no `index`).
    pub fn export_all_request(&self, ext: &str, params: &ExportParams) -> (r: ApiRequest)
        ensures
            pairs_view(r.headers@) == self.identity_headers(),
            r.method == HttpMethod::Get,
            r.url@ == self.base() + "/export/all."@ + ext@,
            pairs_view(r.query@) == export_query(*params),
            r.body is Empty,
    {
        let path = concat2("/export/all.", ext);
        self.request(HttpMethod::Get, path.as_str(), export_query_pairs(params), RequestBody::Empty)
    }

    /// `POST /import/{ext}` with the file's bytes as body and the import
    /// options as query.
    pub fn import_file_request(&self, params: ImportParams) -> (r: ApiRequest)
        ensures
            pairs_view(r.headers@) == self.identity_headers(),
            r.method == HttpMethod::Post,
            r.url@ == self.base() + "/import/"@ + params.ext@,
            pairs_view(r.query@) == import_query(params),
            r.body == RequestBody::Bytes(params.body),
    {
        let path = concat2("/import/", params.ext);
        let mut q: Vec<(String, String)> = Vec::new();
        assert(pairs_view(q@) =~= Seq::empty());
        push_opt_pair(&mut q, "locale", params.locale);
        push_opt_pair(&mut q, "index", params.index);
        push_opt_pair(&mut q, "format", params.format);
        push_opt_pair(&mut q, "tag-new", params.tag_new);
        let ghost before = pairs_view(q@);
        if params.is_async {
            push_pair(&mut q, "async", "1");
        }
        assert(pairs_view(q@) =~= import_query(params));
        self.request(HttpMethod::Post, path.as_str(), q, RequestBody::Bytes(params.body))
    }

    /// `GET /import/progress/{id}`.
    pub fn import_progress_request(&self, id: &str) -> (r: ApiRequest)
        ensures
            pairs_view(r.headers@) == self.identity_headers(),
            plain(r, HttpMethod::Get, self.base() + "/import/progress/"@ + id@),
            r.body is Empty,
    {
        let path = concat2("/import/progress/", id);
        self.request(HttpMethod::Get, path.as_str(), Vec::new(), RequestBody::Empty)
    }

    /// `GET /locales`.
    pub fn list_locales_request(&self) -> (r: ApiRequest)
        ensures
            pairs_view(r.headers@) == self.identity_headers(),
            plain(r, HttpMethod::Get, self.base() + "/locales"@),
            r.body is Empty,
    {
        self.request(HttpMethod::Get, "/locales", Vec::new(), RequestBody::Empty)
    }

    /// `GET /locales/{code}`.
    pub fn get_locale_request(&self, code: &str) -> (r: ApiRequest)
        ensures
            pairs_view(r.headers@) == self.identity_headers(),
            plain(r, HttpMethod::Get, self.base() + "/locales/"@ + code@),
            r.body is Empty,
    {
        let path = concat2("/locales/", code);
        self.request(HttpMethod::Get, path.as_str(), Vec::new(), RequestBody::Empty)
    }

    /// `POST /locales` with the form field `code`.
    pub fn create_locale_request(&self, code: &str) -> (r: ApiRequest)
        ensures
            pairs_view(r.headers@) == self.identity_headers(),
            plain(r, HttpMethod::Post, self.base() + "/locales"@),
            r.body matches RequestBody::Form(f) && pairs_view(f@) == seq![("code"@, code@)],
    {
        self.request(HttpMethod::Post, "/locales", Vec::new(), RequestBody::Form(single_pair("code", code)))
    }

    /// `DELETE /locales/{code}`.
    pub fn delete_locale_request(&self, code: &str) -> (r: ApiRequest)
        ensures
            pairs_view(r.headers@) == self.identity_headers(),
            plain(r, HttpMethod::Delete, self.base() + "/locales/"@ + code@),
            r.body is Empty,
    {
        let path = concat2("/locales/", code);
        self.request(HttpMethod::Delete, path.as_str(), Vec::new(), RequestBody::Empty)
    }

    /// `GET /tags`.
    pub fn list_tags_request(&self) -> (r: ApiRequest)
        ensures
            pairs_view(r.headers@) == self.identity_headers(),
            plain(r, HttpMethod::Get, self.base() + "/tags"@),
            r.body is Empty,
    {
        self.request(HttpMethod::Get, "/tags", Vec::new(), RequestBody::Empty)
    }

    /// `POST /tags` with the form field `name`.
    pub fn create_tag_request(&self, name: &str) -> (r: ApiRequest)
        ensures
            pairs_view(r.headers@) == self.identity_headers(),
            plain(r, HttpMethod::Post, self.base() + "/tags"@),
            r.body matches RequestBody::Form(f) && pairs_view(f@) == seq![("name"@, name@)],
    {
        self.request(HttpMethod::Post, "/tags", Vec::new(), RequestBody::Form(single_pair("name", name)))
    }

    /// `PATCH /tags/{old}.json` with the JSON object `{"name": new}`.
    pub fn rename_tag_request(&self, old: &str, new: &str) -> (r: ApiRequest)
        ensures
            pairs_view(r.headers@) == self.identity_headers(),
            plain(r, HttpMethod::Patch, self.base() + "/tags/"@ + old@ + ".json"@),
            r.body matches RequestBody::Json(f) && pairs_view(f@) == seq![("name"@, new@)],
    {
        let path = concat3("/tags/", old, ".json");
        self.request(HttpMethod::Patch, path.as_str(), Vec::new(), RequestBody::Json(single_pair("name", new)))
    }

    /// `DELETE /tags/{name}.json`.
    pub fn delete_tag_request(&self, name: &str) -> (r: ApiRequest)
        ensures
            pairs_view(r.headers@) == self.identity_headers(),
            plain(r, HttpMethod::Delete, self.base() + "/tags/"@ + name@ + ".json"@),
            r.body is Empty,
    {
        let path = concat3("/tags/", name, ".json");
        self.request(HttpMethod::Delete, path.as_str(), Vec::new(), RequestBody::Empty)
    }

    /// `GET /translations/{id}.json`.
    pub fn get_translations_request(&self, id: &str) -> (r: ApiRequest)
        ensures
            pairs_view(r.headers@) == self.identity_headers(),
            plain(r, HttpMethod::Get, self.base() + "/translations/"@ + id@ + ".json"@),
            r.body is Empty,
    {
        let path = concat3("/translations/", id, ".json");
        self.request(HttpMethod::Get, path.as_str(), Vec::new(), RequestBody::Empty)
    }

    /// `GET /translations/{id}/{locale}`.
    pub fn get_translation_request(&self, id: &str, locale: &str) -> (r: ApiRequest)
        ensures
            pairs_view(r.headers@) == self.identity_headers(),
            plain(r, HttpMethod::Get, self.base() + "/translations/"@ + id@ + "/"@ + locale@),
            r.body is Empty,
    {
        let path = concat4("/translations/", id, "/", locale);
        self.request(HttpMethod::Get, path.as_str(), Vec::new(), RequestBody::Empty)
    }

    /// `POST /translations/{id}/{locale}` with the text as body.
    pub fn set_translation_request(&self, id: &str, locale: &str, text: &str) -> (r: ApiRequest)
        ensures
            pairs_view(r.headers@) == self.identity_headers(),
            plain(r, HttpMethod::Post, self.base() + "/translations/"@ + id@ + "/"@ + locale@),
            r.body matches RequestBody::Text(t) && t@ == text@,
    {
        let path = concat4("/translations/", id, "/", locale);
        self.request(HttpMethod::Post, path.as_str(), Vec::new(), RequestBody::Text(crate::text::owned(text)))
    }

    /// `DELETE /translations/{id}/{locale}`.
    pub fn delete_translation_request(&self, id: &str, locale: &str) -> (r: ApiRequest)
        ensures
            pairs_view(r.headers@) == self.identity_headers(),
            plain(r, HttpMethod::Delete, self.base() + "/translations/"@ + id@ + "/"@ + locale@),
            r.body is Empty,
    {
        let path = concat4("/translations/", id, "/", locale);
        self.request(HttpMethod::Delete, path.as_str(), Vec::new(), RequestBody::Empty)
    }

    /// `POST /translations/{id}/{locale}/flag`, with the form field `flag`
    /// when a flag value is given and no body otherwise.
    pub fn flag_translation_request(&self, id: &str, locale: &str, flag: Option<&str>) -> (r: ApiRequest)
        ensures
            pairs_view(r.headers@) == self.identity_headers(),
            plain(r, HttpMethod::Post, self.base() + "/translations/"@ + id@ + "/"@ + locale@ + "/flag"@),
            match flag {
                Some(f) => r.body matches RequestBody::Form(form) && pairs_view(form@) == seq![("flag"@, f@)],
                None => r.body is Empty,
            },
    {
        let mut path = concat4("/translations/", id, "/", locale);
        path.append("/flag");
        let body = match flag {
            Some(f) => RequestBody::Form(single_pair("flag", f)),
            None => RequestBody::Empty,
        };
        self.request(HttpMethod::Post, path.as_str(), Vec::new(), body)
    }

    /// `DELETE /translations/{id}/{locale}/flag`.
    pub fn unflag_translation_request(&self, id: &str, locale: &str) -> (r: ApiRequest)
        ensures
            pairs_view(r.headers@) == self.identity_headers(),
            plain(r, HttpMethod::Delete, self.base() + "/translations/"@ + id@ + "/"@ + locale@ + "/flag"@),
            r.body is Empty,
    {
        let mut path = concat4("/translations/", id, "/", locale);
        path.append("/flag");
        self.request(HttpMethod::Delete, path.as_str(), Vec::new(), RequestBody::Empty)
    }
}

/// The values an export query gives to `name`, from the values each of its
/// parts gives.
proof fn lemma_export_query_values(p: ExportParams, name: Seq<char>)
    ensures
        param_values(export_query(p), name) == (if name == "format"@ {
            opt_set(opt_view(p.format))
        } else {
            Set::empty()
        }).union(
            if name == "filter"@ {
                opt_set(opt_view(p.filter))
            } else {
                Set::empty()
            },
        ).union(
            if name == "status"@ {
                opt_set(opt_view(p.status))
            } else {
                Set::empty()
            },
        ),
{
    let a = opt_pair("format"@, opt_view(p.format));
    let b = opt_pair("filter"@, opt_view(p.filter));
    let c = opt_pair("status"@, opt_view(p.status));
    lemma_param_values_concat(a + b, c, name);
    lemma_param_values_concat(a, b, name);
    lemma_param_values_opt_pair("format"@, opt_view(p.format), name);
    lemma_param_values_opt_pair("filter"@, opt_view(p.filter), name);
    lemma_param_values_opt_pair("status"@, opt_view(p.status), name);
}

/// Every export sends each option that is given (format, tag filter,
/// status filter) under its own name with its value, once, and nothing for
/// an option that is absent; the per-locale export also sends the key
/// mapping the same way.
pub proof fn law_export_query_carries_options(p: ExportParams)
    ensures
        param_values(export_query(p), "format"@) == opt_set(opt_view(p.format)),
        param_values(export_query(p), "filter"@) == opt_set(opt_view(p.filter)),
        param_values(export_query(p), "status"@) == opt_set(opt_view(p.status)),
        param_values(export_query(p), "index"@) == Set::<Seq<char>>::empty(),
        param_values(export_query(p) + opt_pair("index"@, opt_view(p.index)), "format"@) == opt_set(
            opt_view(p.format),
        ),
        param_values(export_query(p) + opt_pair("index"@, opt_view(p.index)), "filter"@) == opt_set(
            opt_view(p.filter),
        ),
        param_values(export_query(p) + opt_pair("index"@, opt_view(p.index)), "status"@) == opt_set(
            opt_view(p.status),
        ),
        param_values(export_query(p) + opt_pair("index"@, opt_view(p.index)), "index"@) == opt_set(
            opt_view(p.index),
        ),
{
    reveal_strlit("format");
    reveal_strlit("filter");
    reveal_strlit("status");
    reveal_strlit("index");
    assert("format"@ != "filter"@ && "format"@ != "status"@ && "filter"@ != "status"@) by {
        assert("format"@[1] != "filter"@[1]);
        assert("format"@[0] != "status"@[0]);
        assert("filter"@[0] != "status"@[0]);
    }
    assert("index"@ != "format"@ && "index"@ != "filter"@ && "index"@ != "status"@) by {
        assert("index"@.len() != "format"@.len());
        assert("index"@.len() != "filter"@.len());
        assert("index"@.len() != "status"@.len());
    }
    let names = seq!["format"@, "filter"@, "status"@, "index"@];
    assert forall|k: int| 0 <= k < 4 implies {
        let n = #[trigger] names[k];
        &&& param_values(export_query(p), n) == (if n == "format"@ {
            opt_set(opt_view(p.format))
        } else if n == "filter"@ {
            opt_set(opt_view(p.filter))
        } else if n == "status"@ {
            opt_set(opt_view(p.status))
        } else {
            Set::<Seq<char>>::empty()
        })
        &&& param_values(export_query(p) + opt_pair("index"@, opt_view(p.index)), n) == (
        if n == "format"@ {
            opt_set(opt_view(p.format))
        } else if n == "filter"@ {
            opt_set(opt_view(p.filter))
        } else if n == "status"@ {
            opt_set(opt_view(p.status))
        } else {
            opt_set(opt_view(p.index))
        })
    } by {
        let n = names[k];
        lemma_export_query_values(p, n);
        lemma_param_values_concat(export_query(p), opt_pair("index"@, opt_view(p.index)), n);
        lemma_param_values_opt_pair("index"@, opt_view(p.index), n);
        assert(Set::<Seq<char>>::empty().union(Set::<Seq<char>>::empty()) =~= Set::<Seq<char>>::empty());
        assert(opt_set(opt_view(p.format)).union(Set::<Seq<char>>::empty()) =~= opt_set(opt_view(p.format)));
        assert(Set::<Seq<char>>::empty().union(opt_set(opt_view(p.filter))) =~= opt_set(opt_view(p.filter)));
        assert(Set::<Seq<char>>::empty().union(opt_set(opt_view(p.status))) =~= opt_set(opt_view(p.status)));
        assert(Set::<Seq<char>>::empty().union(opt_set(opt_view(p.index))) =~= opt_set(opt_view(p.index)));
        assert(opt_set(opt_view(p.format)).union(Set::<Seq<char>>::empty()).union(Set::<Seq<char>>::empty()) =~= opt_set(opt_view(p.format)));
        assert(Set::<Seq<char>>::empty().union(opt_set(opt_view(p.filter))).union(Set::<Seq<char>>::empty()) =~= opt_set(opt_view(p.filter)));
    }
    assert(names[0] == "format"@);
    assert(names[1] == "filter"@);
    assert(names[2] == "status"@);
    assert(names[3] == "index"@);
}

/// The part of a query that an optional pair named `n` contributes to the
/// values of `name`.
pub open spec fn values_for(n: Seq<char>, value: Option<Seq<char>>, name: Seq<char>) -> Set<Seq<char>> {
    if n == name {
        opt_set(value)
    } else {
        Set::empty()
    }
}

proof fn lemma_import_query_values(p: ImportParams, name: Seq<char>)
    ensures
        param_values(import_query(p), name) == values_for("locale"@, opt_str_view(p.locale), name).union(
            values_for("index"@, opt_str_view(p.index), name),
        ).union(values_for("format"@, opt_str_view(p.format), name)).union(
            values_for("tag-new"@, opt_str_view(p.tag_new), name),
        ).union(
            values_for(
                "async"@,
                if p.is_async {
                    Some("1"@)
                } else {
                    None
                },
                name,
            ),
        ),
{
    let a = opt_pair("locale"@, opt_str_view(p.locale));
    let b = opt_pair("index"@, opt_str_view(p.index));
    let c = opt_pair("format"@, opt_str_view(p.format));
    let d = opt_pair("tag-new"@, opt_str_view(p.tag_new));
    let av = if p.is_async {
        Some("1"@)
    } else {
        None
    };
    let e: Seq<(Seq<char>, Seq<char>)> = if p.is_async {
        seq![("async"@, "1"@)]
    } else {
        Seq::empty()
    };
    assert(e =~= opt_pair("async"@, av));
    lemma_param_values_concat(a + b + c + d, e, name);
    lemma_param_values_concat(a + b + c, d, name);
    lemma_param_values_concat(a + b, c, name);
    lemma_param_values_concat(a, b, name);
    lemma_param_values_opt_pair("locale"@, opt_str_view(p.locale), name);
    lemma_param_values_opt_pair("index"@, opt_str_view(p.index), name);
    lemma_param_values_opt_pair("format"@, opt_str_view(p.format), name);
    lemma_param_values_opt_pair("tag-new"@, opt_str_view(p.tag_new), name);
    lemma_param_values_opt_pair("async"@, av, name);
}

/// Every import sends each option that is given (the file's locale, the
/// key mapping, the format hint, the tag for new assets) under its own name
/// with its value, once, whether or not the import is asynchronous, and
/// nothing for an option that is absent; `async=1` is sent exactly for an
/// asynchronous import.
pub proof fn law_import_query_carries_options(p: ImportParams)
    ensures
        param_values(import_query(p), "locale"@) == opt_set(opt_str_view(p.locale)),
        param_values(import_query(p), "index"@) == opt_set(opt_str_view(p.index)),
        param_values(import_query(p), "format"@) == opt_set(opt_str_view(p.format)),
        param_values(import_query(p), "tag-new"@) == opt_set(opt_str_view(p.tag_new)),
        param_values(import_query(p), "async"@) == if p.is_async {
            set!["1"@]
        } else {
            Set::<Seq<char>>::empty()
        },
{
    reveal_strlit("locale");
    reveal_strlit("index");
    reveal_strlit("format");
    reveal_strlit("tag-new");
    reveal_strlit("async");
    reveal_strlit("1");
    let names = seq!["locale"@, "index"@, "format"@, "tag-new"@, "async"@];
    assert(names[0][0] == 'l' && names[1][0] == 'i' && names[2][0] == 'f' && names[3][0] == 't'
        && names[4][0] == 'a');
    assert forall|i: int, j: int| 0 <= i < 5 && 0 <= j < 5 && i != j implies #[trigger] names[i]
        != #[trigger] names[j] by {
        assert(names[i][0] != names[j][0]);
    }
    let av = if p.is_async {
        Some("1"@)
    } else {
        None
    };
    let e = Set::<Seq<char>>::empty();
    let vals = seq![
        opt_str_view(p.locale),
        opt_str_view(p.index),
        opt_str_view(p.format),
        opt_str_view(p.tag_new),
        av,
    ];
    assert forall|k: int| 0 <= k < 5 implies param_values(import_query(p), #[trigger] names[k])
        == opt_set(vals[k]) by {
        let n = names[k];
        lemma_import_query_values(p, n);
        assert forall|j: int| 0 <= j < 5 && j != k implies values_for(names[j], vals[j], n) == e by {
            assert(names[j] != names[k]);
        }
        assert(values_for(names[k], vals[k], n) == opt_set(vals[k]));
        assert(values_for("locale"@, opt_str_view(p.locale), n) == values_for(names[0], vals[0], n));
        assert(values_for("index"@, opt_str_view(p.index), n) == values_for(names[1], vals[1], n));
        assert(values_for("format"@, opt_str_view(p.format), n) == values_for(names[2], vals[2], n));
        assert(values_for("tag-new"@, opt_str_view(p.tag_new), n) == values_for(names[3], vals[3], n));
        assert(values_for("async"@, av, n) == values_for(names[4], vals[4], n));
        assert(param_values(import_query(p), n) =~= opt_set(vals[k]));
    }
    assert(param_values(import_query(p), names[0]) == opt_set(vals[0]));
    assert(param_values(import_query(p), names[1]) == opt_set(vals[1]));
    assert(param_values(import_query(p), names[2]) == opt_set(vals[2]));
    assert(param_values(import_query(p), names[3]) == opt_set(vals[3]));
    assert(param_values(import_query(p), names[4]) == opt_set(vals[4]));
    assert(opt_set(av) =~= if p.is_async {
        set!["1"@]
    } else {
        Set::<Seq<char>>::empty()
    });
}

} // verus!
