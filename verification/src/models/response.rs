//! Response envelopes.

use vstd::prelude::*;
use crate::decode::{
    expect_object, member_or_default, member_required, object_mismatch, required_at,
    required_decodes, tolerant_at, tolerant_decodes, Decode, Fallback, Otherwise,
};
use crate::error::{Mismatch, SchemaError};
use crate::json::{lemma_trees_of, trees_of, Json, JsonTree};
use crate::models::resources::{Resource, ResourceType};

verus! {

/// The top level of a response: the primary data and what came with it.
#[derive(Clone, Debug, PartialEq)]
pub struct ApiResponse<D> {
    /// Primary data.
    pub data: D,
    /// Included related resources, not yet typed. Empty when the document
    /// has no `included` member: the service leaves it out without notice
    /// when the token lacks the scope for it.
    pub included: Vec<Json>,
    /// Pagination links.
    pub links: PaginationLinks,
    /// Metadata.
    pub meta: Json,
}

impl<D: Decode> Decode for ApiResponse<D> {
    open spec fn mismatch(tree: JsonTree) -> Option<Mismatch> {
        object_mismatch(tree)
            .otherwise(required_at::<D>(tree, "data"@))
            .otherwise(tolerant_at::<Vec<Json>>(tree, "included"@))
            .otherwise(tolerant_at::<PaginationLinks>(tree, "links"@))
    }

    open spec fn decodes(tree: JsonTree, value: ApiResponse<D>) -> bool {
        &&& required_decodes::<D>(tree.member("data"@), value.data)
        &&& tolerant_decodes::<Vec<Json>>(tree.member("included"@), value.included)
        &&& tolerant_decodes::<PaginationLinks>(tree.member("links"@), value.links)
        &&& tolerant_decodes::<Json>(tree.member("meta"@), value.meta)
    }

    fn decode(json: &Json) -> (r: Result<ApiResponse<D>, SchemaError>) {
        expect_object(json)?;
        let data = member_required::<D>(json, "data")?;
        let included = member_or_default::<Vec<Json>>(json, "included")?;
        let links = member_or_default::<PaginationLinks>(json, "links")?;
        let meta = member_or_default::<Json>(json, "meta")?;
        Ok(ApiResponse { data, included, links, meta })
    }
}

/// Whether an included entry is a resource of `kind` with attributes of
/// type `A`: it decodes as one, and its `type` names the kind.
pub open spec fn is_resource_of<A: Decode>(entry: JsonTree, kind: ResourceType) -> bool {
    &&& Resource::<A>::mismatch(entry) is None
    &&& ResourceType::of_word(entry.member("type"@)->0->Text_0) == kind
}

/// The entries that are resources of `kind`, in the order they came.
pub open spec fn resources_of<A: Decode>(entries: Seq<JsonTree>, kind: ResourceType) -> Seq<
    JsonTree,
>
    decreases entries.len(),
{
    if entries.len() == 0 {
        Seq::empty()
    } else if is_resource_of::<A>(entries.last(), kind) {
        resources_of::<A>(entries.drop_last(), kind).push(entries.last())
    } else {
        resources_of::<A>(entries.drop_last(), kind)
    }
}

/// Whether `found` holds, one for one and in order, what `entries` decode
/// to.
pub open spec fn decode_each<A: Decode>(entries: Seq<JsonTree>, found: Seq<Resource<A>>) -> bool {
    &&& found.len() == entries.len()
    &&& forall|i: int|
        0 <= i < found.len() ==> Resource::<A>::decodes(entries[i], #[trigger] found[i])
}

/// Picks from included entries the resources of one kind, typed. An entry
/// of another kind, or one that does not decode, is passed over: what the
/// service includes is mixed, and may hold kinds this library does not
/// know.
pub fn included_of_type<A: Decode>(included: &Vec<Json>, kind: ResourceType) -> (found: Vec<
    Resource<A>,
>)
    ensures
        decode_each::<A>(resources_of::<A>(trees_of(included@), kind), found@),
        forall|i: int| 0 <= i < found@.len() ==> (#[trigger] found@[i]).resource_type == kind,
{
    let mut found: Vec<Resource<A>> = Vec::new();
    let mut i: usize = 0;
    while i < included.len()
        invariant
            i <= included.len(),
            decode_each::<A>(resources_of::<A>(trees_of(included@).take(i as int), kind), found@),
            forall|k: int| 0 <= k < found@.len() ==> (#[trigger] found@[k]).resource_type == kind,
        decreases included.len() - i,
    {
        proof {
            lemma_trees_of(included@);
            let next = trees_of(included@).take(i + 1);
            assert(next.drop_last() =~= trees_of(included@).take(i as int));
            assert(next.last() == included@[i as int]@);
        }
        match Resource::<A>::decode(&included[i]) {
            Ok(resource) => {
                if resource.resource_type == kind {
                    found.push(resource);
                }
            },
            Err(_) => {},
        }
        i += 1;
    }
    proof {
        lemma_trees_of(included@);
        assert(trees_of(included@).take(included.len() as int) =~= trees_of(included@));
    }
    found
}

impl<D> ApiResponse<D> {
    /// The included resources of one kind, typed.
    pub fn included_of_type<A: Decode>(&self, kind: ResourceType) -> (found: Vec<Resource<A>>)
        ensures
            decode_each::<A>(resources_of::<A>(trees_of(self.included@), kind), found@),
            forall|i: int| 0 <= i < found@.len() ==> (#[trigger] found@[i]).resource_type == kind,
    {
        included_of_type::<A>(&self.included, kind)
    }
}

/// A document without an `included` member, or with `null` there, decodes
/// to an envelope with no included resources.
pub proof fn lemma_included_defaults_to_empty<D: Decode>(tree: JsonTree, value: ApiResponse<D>)
    requires
        ApiResponse::<D>::decodes(tree, value),
        tree.member("included"@) is None || tree.member("included"@) == Some(JsonTree::Null),
    ensures
        value.included@.len() == 0,
{
}

/// Pagination links.
#[derive(Clone, Debug, PartialEq)]
pub struct PaginationLinks {
    /// First page.
    pub first: String,
    /// Previous page.
    pub prev: String,
    /// Next page.
    pub next: String,
    /// Last page.
    pub last: String,
    /// Current page.
    pub self_link: String,
}

impl Decode for PaginationLinks {
    open spec fn mismatch(tree: JsonTree) -> Option<Mismatch> {
        object_mismatch(tree)
            .otherwise(tolerant_at::<String>(tree, "first"@))
            .otherwise(tolerant_at::<String>(tree, "prev"@))
            .otherwise(tolerant_at::<String>(tree, "next"@))
            .otherwise(tolerant_at::<String>(tree, "last"@))
            .otherwise(tolerant_at::<String>(tree, "self"@))
    }

    open spec fn decodes(tree: JsonTree, value: PaginationLinks) -> bool {
        &&& tolerant_decodes::<String>(tree.member("first"@), value.first)
        &&& tolerant_decodes::<String>(tree.member("prev"@), value.prev)
        &&& tolerant_decodes::<String>(tree.member("next"@), value.next)
        &&& tolerant_decodes::<String>(tree.member("last"@), value.last)
        &&& tolerant_decodes::<String>(tree.member("self"@), value.self_link)
    }

    fn decode(json: &Json) -> (r: Result<PaginationLinks, SchemaError>) {
        expect_object(json)?;
        let first = member_or_default::<String>(json, "first")?;
        let prev = member_or_default::<String>(json, "prev")?;
        let next = member_or_default::<String>(json, "next")?;
        let last = member_or_default::<String>(json, "last")?;
        let self_link = member_or_default::<String>(json, "self")?;
        Ok(
            PaginationLinks {
                first,
                prev,
                next,
                last,
                self_link,
            },
        )
    }
}

impl Fallback for PaginationLinks {
    open spec fn is_fallback(value: PaginationLinks) -> bool {
        &&& <String as Fallback>::is_fallback(value.first)
        &&& <String as Fallback>::is_fallback(value.prev)
        &&& <String as Fallback>::is_fallback(value.next)
        &&& <String as Fallback>::is_fallback(value.last)
        &&& <String as Fallback>::is_fallback(value.self_link)
    }

    fn fallback() -> (r: PaginationLinks) {
        PaginationLinks::default()
    }
}

impl Default for PaginationLinks {
    fn default() -> (r: PaginationLinks)
        ensures
            PaginationLinks::is_fallback(r),
    {
        PaginationLinks {
            first: String::new(),
            prev: String::new(),
            next: String::new(),
            last: String::new(),
            self_link: String::new(),
        }
    }
}

/// Pagination metadata.
#[derive(Clone, Debug, PartialEq)]
pub struct PaginationMeta {
    /// Total count.
    pub count: i32,
}

impl Decode for PaginationMeta {
    open spec fn mismatch(tree: JsonTree) -> Option<Mismatch> {
        object_mismatch(tree)
            .otherwise(tolerant_at::<i32>(tree, "count"@))
    }

    open spec fn decodes(tree: JsonTree, value: PaginationMeta) -> bool {
        &&& tolerant_decodes::<i32>(tree.member("count"@), value.count)
    }

    fn decode(json: &Json) -> (r: Result<PaginationMeta, SchemaError>) {
        expect_object(json)?;
        let count = member_or_default::<i32>(json, "count")?;
        Ok(
            PaginationMeta {
                count,
            },
        )
    }
}

impl Fallback for PaginationMeta {
    open spec fn is_fallback(value: PaginationMeta) -> bool {
        &&& <i32 as Fallback>::is_fallback(value.count)
    }

    fn fallback() -> (r: PaginationMeta) {
        PaginationMeta::default()
    }
}

impl Default for PaginationMeta {
    fn default() -> (r: PaginationMeta)
        ensures
            PaginationMeta::is_fallback(r),
    {
        PaginationMeta {
            count: 0,
        }
    }
}

/// Single resource response.
pub type SingleResponse<T> = ApiResponse<T>;

/// List resource response.
pub type ListResponse<T> = ApiResponse<Vec<T>>;

/// API error response.
#[derive(Clone, Debug, PartialEq)]
pub struct ApiError {
    /// Error list.
    pub errors: Vec<ApiErrorDetail>,
}

impl Decode for ApiError {
    open spec fn mismatch(tree: JsonTree) -> Option<Mismatch> {
        object_mismatch(tree)
            .otherwise(required_at::<Vec<ApiErrorDetail>>(tree, "errors"@))
    }

    open spec fn decodes(tree: JsonTree, value: ApiError) -> bool {
        &&& required_decodes::<Vec<ApiErrorDetail>>(tree.member("errors"@), value.errors)
    }

    fn decode(json: &Json) -> (r: Result<ApiError, SchemaError>) {
        expect_object(json)?;
        let errors = member_required::<Vec<ApiErrorDetail>>(json, "errors")?;
        Ok(
            ApiError {
                errors,
            },
        )
    }
}

/// API error detail.
#[derive(Clone, Debug, PartialEq)]
pub struct ApiErrorDetail {
    /// Error code.
    pub code: i32,
    /// HTTP status code (string).
    pub status: String,
    /// Error title.
    pub title: String,
    /// Error detail.
    pub detail: String,
    /// Error code name.
    pub code_name: String,
    /// Error ID.
    pub id: String,
}

impl Decode for ApiErrorDetail {
    open spec fn mismatch(tree: JsonTree) -> Option<Mismatch> {
        object_mismatch(tree)
            .otherwise(tolerant_at::<i32>(tree, "code"@))
            .otherwise(tolerant_at::<String>(tree, "status"@))
            .otherwise(tolerant_at::<String>(tree, "title"@))
            .otherwise(tolerant_at::<String>(tree, "detail"@))
            .otherwise(tolerant_at::<String>(tree, "code_name"@))
            .otherwise(tolerant_at::<String>(tree, "id"@))
    }

    open spec fn decodes(tree: JsonTree, value: ApiErrorDetail) -> bool {
        &&& tolerant_decodes::<i32>(tree.member("code"@), value.code)
        &&& tolerant_decodes::<String>(tree.member("status"@), value.status)
        &&& tolerant_decodes::<String>(tree.member("title"@), value.title)
        &&& tolerant_decodes::<String>(tree.member("detail"@), value.detail)
        &&& tolerant_decodes::<String>(tree.member("code_name"@), value.code_name)
        &&& tolerant_decodes::<String>(tree.member("id"@), value.id)
    }

    fn decode(json: &Json) -> (r: Result<ApiErrorDetail, SchemaError>) {
        expect_object(json)?;
        let code = member_or_default::<i32>(json, "code")?;
        let status = member_or_default::<String>(json, "status")?;
        let title = member_or_default::<String>(json, "title")?;
        let detail = member_or_default::<String>(json, "detail")?;
        let code_name = member_or_default::<String>(json, "code_name")?;
        let id = member_or_default::<String>(json, "id")?;
        Ok(
            ApiErrorDetail {
                code,
                status,
                title,
                detail,
                code_name,
                id,
            },
        )
    }
}

} // verus!
