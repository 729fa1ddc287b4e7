//! Resources: the entities of the API, each tagged with its kind.

use vstd::prelude::*;
use crate::decode::{
    expect_object, member_optional, member_required, object_mismatch, optional_decodes,
    required_at, required_decodes, tolerant_at, Decode, Fallback, Otherwise,
};
use crate::error::{unplaced, Expected, Mismatch, SchemaError};
use crate::json::{Json, JsonTree};
use crate::models::attributes::{
    AddressAttributes, BenefitAttributes, CampaignAttributes, GoalAttributes, MediaAttributes,
    MemberAttributes, PostAttributes, TierAttributes, UserAttributes, WebhookAttributes,
};
use crate::text::str_eq;

verus! {

/// The kind of a resource, under the `type` key of the wire format. The service may add kinds; a word this library does not know decodes to `Unknown`, never to an error.
#[derive(Clone, Copy, Debug, PartialEq, Eq, Structural)]
pub enum ResourceType {
    /// `user`
    User,
    /// `campaign`
    Campaign,
    /// `member`
    Member,
    /// `tier`
    Tier,
    /// `post`
    Post,
    /// `benefit`
    Benefit,
    /// `deliverable`
    Deliverable,
    /// `address`
    Address,
    /// `goal`
    Goal,
    /// `media`
    Media,
    /// `webhook`
    Webhook,
    /// `pledge_event`
    PledgeEvent,
    /// Any other word.
    Unknown,
}

impl ResourceType {
    /// The wire word of a known kind; the catch-all has none.
    pub open spec fn word(self) -> Option<Seq<char>> {
        match self {
            ResourceType::User => Some("user"@),
            ResourceType::Campaign => Some("campaign"@),
            ResourceType::Member => Some("member"@),
            ResourceType::Tier => Some("tier"@),
            ResourceType::Post => Some("post"@),
            ResourceType::Benefit => Some("benefit"@),
            ResourceType::Deliverable => Some("deliverable"@),
            ResourceType::Address => Some("address"@),
            ResourceType::Goal => Some("goal"@),
            ResourceType::Media => Some("media"@),
            ResourceType::Webhook => Some("webhook"@),
            ResourceType::PledgeEvent => Some("pledge_event"@),
            ResourceType::Unknown => None,
        }
    }

    /// The kind that a wire word names: an exact, case-sensitive match, or
    /// the catch-all.
    pub open spec fn of_word(word: Seq<char>) -> ResourceType {
        if word == "user"@ {
            ResourceType::User
        } else if word == "campaign"@ {
            ResourceType::Campaign
        } else if word == "member"@ {
            ResourceType::Member
        } else if word == "tier"@ {
            ResourceType::Tier
        } else if word == "post"@ {
            ResourceType::Post
        } else if word == "benefit"@ {
            ResourceType::Benefit
        } else if word == "deliverable"@ {
            ResourceType::Deliverable
        } else if word == "address"@ {
            ResourceType::Address
        } else if word == "goal"@ {
            ResourceType::Goal
        } else if word == "media"@ {
            ResourceType::Media
        } else if word == "webhook"@ {
            ResourceType::Webhook
        } else if word == "pledge_event"@ {
            ResourceType::PledgeEvent
        } else {
            ResourceType::Unknown
        }
    }

    /// Reads a wire word. No word is refused.
    pub fn from_wire(word: &str) -> (r: ResourceType)
        ensures
            r == ResourceType::of_word(word@),
    {
        if str_eq(word, "user") {
            ResourceType::User
        } else if str_eq(word, "campaign") {
            ResourceType::Campaign
        } else if str_eq(word, "member") {
            ResourceType::Member
        } else if str_eq(word, "tier") {
            ResourceType::Tier
        } else if str_eq(word, "post") {
            ResourceType::Post
        } else if str_eq(word, "benefit") {
            ResourceType::Benefit
        } else if str_eq(word, "deliverable") {
            ResourceType::Deliverable
        } else if str_eq(word, "address") {
            ResourceType::Address
        } else if str_eq(word, "goal") {
            ResourceType::Goal
        } else if str_eq(word, "media") {
            ResourceType::Media
        } else if str_eq(word, "webhook") {
            ResourceType::Webhook
        } else if str_eq(word, "pledge_event") {
            ResourceType::PledgeEvent
        } else {
            ResourceType::Unknown
        }
    }

    /// The wire word of a known kind.
    pub fn wire_name(&self) -> (r: Option<&'static str>)
        ensures
            r is Some <==> self.word() is Some,
            r is Some ==> r->0@ == self.word()->0,
    {
        match self {
            ResourceType::User => Some("user"),
            ResourceType::Campaign => Some("campaign"),
            ResourceType::Member => Some("member"),
            ResourceType::Tier => Some("tier"),
            ResourceType::Post => Some("post"),
            ResourceType::Benefit => Some("benefit"),
            ResourceType::Deliverable => Some("deliverable"),
            ResourceType::Address => Some("address"),
            ResourceType::Goal => Some("goal"),
            ResourceType::Media => Some("media"),
            ResourceType::Webhook => Some("webhook"),
            ResourceType::PledgeEvent => Some("pledge_event"),
            ResourceType::Unknown => None,
        }
    }
}

impl Decode for ResourceType {
    open spec fn mismatch(tree: JsonTree) -> Option<Mismatch> {
        if tree is Text {
            None
        } else {
            Some(unplaced(Expected::Text))
        }
    }

    open spec fn decodes(tree: JsonTree, value: ResourceType) -> bool {
        tree is Text && value == ResourceType::of_word(tree->Text_0)
    }

    fn decode(json: &Json) -> (r: Result<ResourceType, SchemaError>) {
        match json {
            Json::Text(word) => Ok(ResourceType::from_wire(word.as_str())),
            _ => Err(SchemaError::unplaced(Expected::Text)),
        }
    }
}

impl Fallback for ResourceType {
    open spec fn is_fallback(value: ResourceType) -> bool {
        value == ResourceType::Unknown
    }

    fn fallback() -> (r: ResourceType) {
        ResourceType::Unknown
    }
}

/// Reading the wire word of a kind gives that kind back.
pub proof fn lemma_resource_type_word_read_back(kind: ResourceType)
    requires
        kind.word() is Some,
    ensures
        ResourceType::of_word(kind.word()->0) == kind,
{
    reveal_strlit("user");
    reveal_strlit("campaign");
    reveal_strlit("member");
    reveal_strlit("tier");
    reveal_strlit("post");
    reveal_strlit("benefit");
    reveal_strlit("deliverable");
    reveal_strlit("address");
    reveal_strlit("goal");
    reveal_strlit("media");
    reveal_strlit("webhook");
    reveal_strlit("pledge_event");
    assert("user"@.len() == 4);
    assert("campaign"@.len() == 8);
    assert("member"@.len() == 6);
    assert("tier"@.len() == 4);
    assert("post"@.len() == 4);
    assert("benefit"@.len() == 7);
    assert("deliverable"@.len() == 11);
    assert("address"@.len() == 7);
    assert("goal"@.len() == 4);
    assert("media"@.len() == 5);
    assert("webhook"@.len() == 7);
    assert("pledge_event"@.len() == 12);
    assert("user"@[0] != "tier"@[0]);
    assert("user"@[0] != "post"@[0]);
    assert("user"@[0] != "goal"@[0]);
    assert("tier"@[0] != "post"@[0]);
    assert("tier"@[0] != "goal"@[0]);
    assert("post"@[0] != "goal"@[0]);
    assert("benefit"@[0] != "address"@[0]);
    assert("benefit"@[0] != "webhook"@[0]);
    assert("address"@[0] != "webhook"@[0]);
}

/// A word that names a known kind is the wire word of that kind.
pub proof fn lemma_resource_type_word_kept(word: Seq<char>)
    requires
        ResourceType::of_word(word) != ResourceType::Unknown,
    ensures
        ResourceType::of_word(word).word() == Some(word),
{
}

/// One resource: its id, its kind, and what it carries.
#[derive(Clone, Debug, PartialEq)]
pub struct Resource<A> {
    pub id: String,
    pub resource_type: ResourceType,
    /// The typed attributes; `None` when the document has none.
    pub attributes: Option<A>,
    /// The links to other resources, as they came.
    pub relationships: Option<Json>,
}

impl<A: Decode> Decode for Resource<A> {
    open spec fn mismatch(tree: JsonTree) -> Option<Mismatch> {
        object_mismatch(tree)
            .otherwise(required_at::<String>(tree, "id"@))
            .otherwise(required_at::<ResourceType>(tree, "type"@))
            .otherwise(tolerant_at::<A>(tree, "attributes"@))
    }

    open spec fn decodes(tree: JsonTree, value: Resource<A>) -> bool {
        &&& required_decodes::<String>(tree.member("id"@), value.id)
        &&& required_decodes::<ResourceType>(tree.member("type"@), value.resource_type)
        &&& optional_decodes::<A>(tree.member("attributes"@), value.attributes)
        &&& optional_decodes::<Json>(tree.member("relationships"@), value.relationships)
    }

    fn decode(json: &Json) -> (r: Result<Resource<A>, SchemaError>) {
        expect_object(json)?;
        let id = member_required::<String>(json, "id")?;
        let resource_type = member_required::<ResourceType>(json, "type")?;
        let attributes = member_optional::<A>(json, "attributes")?;
        let relationships = member_optional::<Json>(json, "relationships")?;
        Ok(Resource { id, resource_type, attributes, relationships })
    }
}

/// A reference to a resource, as relationships hold it.
#[derive(Clone, Debug, PartialEq)]
pub struct ResourceRef {
    pub id: String,
    pub resource_type: ResourceType,
}

impl Decode for ResourceRef {
    open spec fn mismatch(tree: JsonTree) -> Option<Mismatch> {
        object_mismatch(tree)
            .otherwise(required_at::<String>(tree, "id"@))
            .otherwise(required_at::<ResourceType>(tree, "type"@))
    }

    open spec fn decodes(tree: JsonTree, value: ResourceRef) -> bool {
        &&& required_decodes::<String>(tree.member("id"@), value.id)
        &&& required_decodes::<ResourceType>(tree.member("type"@), value.resource_type)
    }

    fn decode(json: &Json) -> (r: Result<ResourceRef, SchemaError>) {
        expect_object(json)?;
        let id = member_required::<String>(json, "id")?;
        let resource_type = member_required::<ResourceType>(json, "type")?;
        Ok(
            ResourceRef {
                id,
                resource_type,
            },
        )
    }
}

/// What a relationship points at: one resource or several.
#[derive(Clone, Debug, PartialEq)]
pub enum RelationshipDataValue {
    Single(ResourceRef),
    Multiple(Vec<ResourceRef>),
}

impl Decode for RelationshipDataValue {
    open spec fn mismatch(tree: JsonTree) -> Option<Mismatch> {
        if ResourceRef::mismatch(tree) is None || Vec::<ResourceRef>::mismatch(tree) is None {
            None
        } else {
            Some(unplaced(Expected::Variant))
        }
    }

    open spec fn decodes(tree: JsonTree, value: RelationshipDataValue) -> bool {
        match value {
            RelationshipDataValue::Single(one) => ResourceRef::mismatch(tree) is None
                && ResourceRef::decodes(tree, one),
            RelationshipDataValue::Multiple(many) => ResourceRef::mismatch(tree) is Some
                && Vec::<ResourceRef>::decodes(tree, many),
        }
    }

    fn decode(json: &Json) -> (r: Result<RelationshipDataValue, SchemaError>) {
        match ResourceRef::decode(json) {
            Ok(one) => Ok(RelationshipDataValue::Single(one)),
            Err(_) => match Vec::<ResourceRef>::decode(json) {
                Ok(many) => Ok(RelationshipDataValue::Multiple(many)),
                Err(_) => Err(SchemaError::unplaced(Expected::Variant)),
            },
        }
    }
}

/// One relationship of a resource.
#[derive(Clone, Debug, PartialEq)]
pub struct RelationshipData {
    /// What the relationship points at.
    pub data: Option<RelationshipDataValue>,
    /// The links of the relationship, as they came.
    pub links: Option<Json>,
}

impl Decode for RelationshipData {
    open spec fn mismatch(tree: JsonTree) -> Option<Mismatch> {
        object_mismatch(tree)
            .otherwise(tolerant_at::<RelationshipDataValue>(tree, "data"@))
            .otherwise(tolerant_at::<Json>(tree, "links"@))
    }

    open spec fn decodes(tree: JsonTree, value: RelationshipData) -> bool {
        &&& optional_decodes::<RelationshipDataValue>(tree.member("data"@), value.data)
        &&& optional_decodes::<Json>(tree.member("links"@), value.links)
    }

    fn decode(json: &Json) -> (r: Result<RelationshipData, SchemaError>) {
        expect_object(json)?;
        let data = member_optional::<RelationshipDataValue>(json, "data")?;
        let links = member_optional::<Json>(json, "links")?;
        Ok(
            RelationshipData {
                data,
                links,
            },
        )
    }
}

/// Whether `found` is what the relationship `name` of a resource with
/// these relationships reads as: nothing where there are no relationships,
/// no such member, or a member of another shape.
pub open spec fn relationship_reads(
    relationships: Option<Json>,
    name: Seq<char>,
    found: Option<RelationshipData>,
) -> bool {
    let slot = match relationships {
        Some(all) => all@.member(name),
        None => None,
    };
    if slot is Some && RelationshipData::mismatch(slot->0) is None {
        found is Some && RelationshipData::decodes(slot->0, found->0)
    } else {
        found is None
    }
}

impl<A> Resource<A> {
    /// The relationship `name` of this resource, typed.
    pub fn relationship(&self, name: &str) -> (found: Option<RelationshipData>)
        ensures
            relationship_reads(self.relationships, name@, found),
    {
        match &self.relationships {
            Some(all) => match all.get(name) {
                Some(value) => match RelationshipData::decode(value) {
                    Ok(data) => Some(data),
                    Err(_) => None,
                },
                None => None,
            },
            None => None,
        }
    }
}

/// Every word is a resource type: one that is not known is `Unknown`, and
/// no text fails to decode.
pub proof fn lemma_every_word_is_a_resource_type(word: Seq<char>)
    ensures
        ResourceType::mismatch(JsonTree::Text(word)) is None,
        ResourceType::decodes(JsonTree::Text(word), ResourceType::of_word(word)),
        ResourceType::of_word(word).word() is None ==> ResourceType::of_word(word)
            == ResourceType::Unknown,
{
}

pub type UserResource = Resource<UserAttributes>;

pub type CampaignResource = Resource<CampaignAttributes>;

pub type MemberResource = Resource<MemberAttributes>;

pub type TierResource = Resource<TierAttributes>;

pub type PostResource = Resource<PostAttributes>;

pub type BenefitResource = Resource<BenefitAttributes>;

pub type AddressResource = Resource<AddressAttributes>;

pub type GoalResource = Resource<GoalAttributes>;

pub type MediaResource = Resource<MediaAttributes>;

pub type WebhookResource = Resource<WebhookAttributes>;

} // verus!
