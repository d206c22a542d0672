//! The public request pipeline: URL validation, then path resolution, then
//! argument construction, in strict order. The first failure short-circuits:
//! a rejected request never yields an argument list, so the external tool is
//! never run and no output file is created for it.

use vstd::prelude::*;
use crate::args::build_get_args;
use crate::args::build_post_args;
use crate::args::get_args;
use crate::args::post_args;
use crate::args::tokens_of;
use crate::request::CurlRequest;
use crate::request::CurlResult;
use crate::request::ValidationError;
use crate::request::error_text;
use crate::url_check::url_allowed;
use crate::url_check::validate_url;
use crate::vault::has_dotdot;
use crate::vault::resolve_spec;
use crate::vault::resolve_vault_path;

verus! {

/// What preparing a GET request yields: the rejection of the first check
/// that fails, or the full argument list.
pub open spec fn prepare_get_spec(
    req: CurlRequest,
    out_spec: Seq<char>,
    root: Seq<char>,
) -> Result<Seq<Seq<char>>, ValidationError> {
    if !url_allowed(req.url@) {
        Err(ValidationError::InvalidUrl)
    } else {
        match resolve_spec(out_spec, root) {
            Err(e) => Err(e),
            Ok(out) => Ok(get_args(req.url@, req.headers@, out)),
        }
    }
}

/// What preparing a POST request yields: the rejection of the first check
/// that fails (URL, then data path, then output path), or the full argument
/// list.
pub open spec fn prepare_post_spec(
    req: CurlRequest,
    data_spec: Seq<char>,
    out_spec: Seq<char>,
    root: Seq<char>,
) -> Result<Seq<Seq<char>>, ValidationError> {
    if !url_allowed(req.url@) {
        Err(ValidationError::InvalidUrl)
    } else {
        match resolve_spec(data_spec, root) {
            Err(e) => Err(e),
            Ok(data) => match resolve_spec(out_spec, root) {
                Err(e) => Err(e),
                Ok(out) => Ok(post_args(req.url@, req.headers@, data, out)),
            },
        }
    }
}

/// Validates and constructs the argument list of a GET request, exactly as
/// `prepare_get_spec` says; on a validation failure no argument list exists.
pub fn prepare_get(request: &CurlRequest, output_path_spec: &str, vault_root: &str) -> (r: Result<
    Vec<String>,
    ValidationError,
>)
    ensures
        match r {
            Ok(args) => prepare_get_spec(*request, output_path_spec@, vault_root@) == Ok::<
                Seq<Seq<char>>,
                ValidationError,
            >(tokens_of(args@)),
            Err(e) => prepare_get_spec(*request, output_path_spec@, vault_root@) == Err::<
                Seq<Seq<char>>,
                ValidationError,
            >(e),
        },
{
    let url = match validate_url(request.url.as_str()) {
        Ok(u) => u,
        Err(e) => {
            return Err(e);
        },
    };
    let out = match resolve_vault_path(output_path_spec, vault_root) {
        Ok(p) => p,
        Err(e) => {
            return Err(e);
        },
    };
    Ok(build_get_args(url, &request.headers, out))
}

/// Validates and constructs the argument list of a POST request, exactly as
/// `prepare_post_spec` says; on a validation failure no argument list exists.
pub fn prepare_post(
    request: &CurlRequest,
    data_path_spec: &str,
    output_path_spec: &str,
    vault_root: &str,
) -> (r: Result<Vec<String>, ValidationError>)
    ensures
        match r {
            Ok(args) => prepare_post_spec(
                *request,
                data_path_spec@,
                output_path_spec@,
                vault_root@,
            ) == Ok::<Seq<Seq<char>>, ValidationError>(tokens_of(args@)),
            Err(e) => prepare_post_spec(*request, data_path_spec@, output_path_spec@, vault_root@)
                == Err::<Seq<Seq<char>>, ValidationError>(e),
        },
{
    let url = match validate_url(request.url.as_str()) {
        Ok(u) => u,
        Err(e) => {
            return Err(e);
        },
    };
    let data = match resolve_vault_path(data_path_spec, vault_root) {
        Ok(p) => p,
        Err(e) => {
            return Err(e);
        },
    };
    let out = match resolve_vault_path(output_path_spec, vault_root) {
        Ok(p) => p,
        Err(e) => {
            return Err(e);
        },
    };
    Ok(build_post_args(url, &request.headers, data, out))
}

/// The structured result a validation failure becomes: no payload, the
/// failure's own text in the error channel.
pub fn validation_failure(e: ValidationError) -> (r: CurlResult)
    ensures
        !r.success,
        r.payload@.len() == 0,
        r.error@ == error_text(e),
{
    CurlResult { success: false, payload: String::new(), error: e.message() }
}

/// A URL whose scheme is not in the allow-list is rejected before any
/// argument list exists, for GET and POST alike: the external tool can never
/// be invoked for it, so the designated output file is never created.
pub proof fn lemma_unsafe_scheme_short_circuits(
    req: CurlRequest,
    data_spec: Seq<char>,
    out_spec: Seq<char>,
    root: Seq<char>,
)
    requires
        !url_allowed(req.url@),
    ensures
        prepare_get_spec(req, out_spec, root) == Err::<Seq<Seq<char>>, ValidationError>(
            ValidationError::InvalidUrl,
        ),
        prepare_post_spec(req, data_spec, out_spec, root) == Err::<
            Seq<Seq<char>>,
            ValidationError,
        >(ValidationError::InvalidUrl),
{
}

/// Every argument list the pipeline yields — for any request it accepts —
/// carries the fixed hardening flags exactly once: they are its last five
/// tokens, after all kind-specific and caller-derived arguments, and no
/// earlier token equals one of them.
pub proof fn lemma_prepared_hardening_once(
    req: CurlRequest,
    data_spec: Seq<char>,
    out_spec: Seq<char>,
    root: Seq<char>,
)
    ensures
        prepare_get_spec(req, out_spec, root) is Ok ==> ({
            let a = prepare_get_spec(req, out_spec, root)->Ok_0;
            let n = a.len() as int;
            &&& n == 2 * req.headers@.len() + 10
            &&& a.subrange(n - 5, n) == crate::args::hardening_tokens()
            &&& forall|k: int|
                0 <= k < n - 5 ==> !crate::args::is_hardening_token(#[trigger] a[k])
        }),
        prepare_post_spec(req, data_spec, out_spec, root) is Ok ==> ({
            let a = prepare_post_spec(req, data_spec, out_spec, root)->Ok_0;
            let n = a.len() as int;
            &&& n == 2 * req.headers@.len() + 12
            &&& a.subrange(n - 5, n) == crate::args::hardening_tokens()
            &&& forall|k: int|
                0 <= k < n - 5 ==> !crate::args::is_hardening_token(#[trigger] a[k])
        }),
{
    let url = req.url@;
    let hs = req.headers@;
    if prepare_get_spec(req, out_spec, root) is Ok || prepare_post_spec(
        req,
        data_spec,
        out_spec,
        root,
    ) is Ok {
        crate::url_check::lemma_allowed_url_head(url);
        crate::args::lemma_not_hardening_by_head(url);
        assert forall|i: int| 0 <= i < hs.len() implies !crate::args::is_hardening_token(
            crate::args::header_token(hs[i]),
        ) by {
            crate::args::lemma_header_token_not_hardening(hs[i]);
        }
        crate::vault::lemma_resolved_has_slash(out_spec, root);
        let out = resolve_spec(out_spec, root)->Ok_0;
        crate::args::lemma_separator_token_not_hardening(out, root.len() as int);
        if prepare_get_spec(req, out_spec, root) is Ok {
            crate::args::lemma_hardening_once_get(url, hs, out);
        }
        if prepare_post_spec(req, data_spec, out_spec, root) is Ok {
            crate::args::lemma_hardening_once_post(
                url,
                hs,
                resolve_spec(data_spec, root)->Ok_0,
                out,
            );
        }
    }
}

/// In every argument list the pipeline yields, the order of `-H` pairs
/// matches the request's header order exactly: the pair of `headers[i]`
/// stands at positions `3 + 2i` and `4 + 2i` of a GET list and at `7 + 2i`
/// and `8 + 2i` of a POST list.
pub proof fn lemma_prepared_header_order(
    req: CurlRequest,
    data_spec: Seq<char>,
    out_spec: Seq<char>,
    root: Seq<char>,
)
    ensures
        prepare_get_spec(req, out_spec, root) is Ok ==> crate::args::header_pairs_in_order(
            prepare_get_spec(req, out_spec, root)->Ok_0,
            req.headers@,
            3,
        ),
        prepare_post_spec(req, data_spec, out_spec, root) is Ok
            ==> crate::args::header_pairs_in_order(
            prepare_post_spec(req, data_spec, out_spec, root)->Ok_0,
            req.headers@,
            7,
        ),
{
    let out = resolve_spec(out_spec, root)->Ok_0;
    let data = resolve_spec(data_spec, root)->Ok_0;
    crate::args::lemma_header_order(req.url@, req.headers@, data, out);
    if prepare_get_spec(req, out_spec, root) is Ok {
        assert(prepare_get_spec(req, out_spec, root)->Ok_0 == get_args(
            req.url@,
            req.headers@,
            out,
        ));
    }
    if prepare_post_spec(req, data_spec, out_spec, root) is Ok {
        assert(prepare_post_spec(req, data_spec, out_spec, root)->Ok_0 == post_args(
            req.url@,
            req.headers@,
            data,
            out,
        ));
    }
}

/// A path specification holding an upward-traversal segment never yields an
/// argument list, for GET and POST alike, whichever of the two paths it was
/// supplied as: the request is rejected before the external tool could run.
pub proof fn lemma_traversal_short_circuits(
    req: CurlRequest,
    data_spec: Seq<char>,
    out_spec: Seq<char>,
    root: Seq<char>,
)
    ensures
        has_dotdot(out_spec) ==> prepare_get_spec(req, out_spec, root) is Err,
        has_dotdot(out_spec) ==> prepare_post_spec(req, data_spec, out_spec, root) is Err,
        has_dotdot(data_spec) ==> prepare_post_spec(req, data_spec, out_spec, root) is Err,
{
}

} // verus!
