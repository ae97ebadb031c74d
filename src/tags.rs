use vstd::prelude::*;

verus! {

/// The group that a protocol tag belongs to.
#[derive(Clone, Copy, Debug, PartialEq, Eq, Structural)]
pub enum TagGroup {
    BuyerId,
    BuyerFee,
    BuyerTerms,
    DeliveryTerms,
    BppTerms,
    BapTerms,
    BppPayment,
    G2,
    PriceSlab,
}

/// The code of one entry inside a tag group.
#[derive(Clone, Copy, Debug, PartialEq, Eq, Structural)]
pub enum TagCode {
    BuyerIdCode,
    BuyerIdNo,
    FinderFeeType,
    FinderFeeAmount,
    ItemReq,
    PackagingsReq,
    IncoTerms,
    NamedPlaceOfDelivery,
    MaxLiability,
    MaxLiabilityCap,
    MandatoryArbitration,
    CourtJurisdiction,
    DelayInterest,
    AcceptBppTerms,
    TaxRate,
    MinPackSize,
    MaxPackSize,
    UnitSalePrice,
    Ttl,
    Dsa,
    Signature,
}

#[derive(Clone, Debug)]
pub struct TagItem {
    pub code: TagCode,
    pub value: String,
}

/// A protocol tag: a group code with its list of coded values.
#[derive(Clone, Debug)]
pub struct Tag {
    pub code: TagGroup,
    pub list: Vec<TagItem>,
}

/// The value of the first entry with the code, if any.
pub open spec fn item_value(list: Seq<TagItem>, code: TagCode) -> Option<Seq<char>>
    decreases list.len(),
{
    if list.len() == 0 {
        None
    } else if list[0].code == code {
        Some(list[0].value@)
    } else {
        item_value(list.drop_first(), code)
    }
}

/// The value under `code` in the first tag of the group that carries one.
pub open spec fn tag_value(tags: Seq<Tag>, group: TagGroup, code: TagCode) -> Option<Seq<char>>
    decreases tags.len(),
{
    if tags.len() == 0 {
        None
    } else if tags[0].code == group && item_value(tags[0].list@, code) is Some {
        item_value(tags[0].list@, code)
    } else {
        tag_value(tags.drop_first(), group, code)
    }
}

/// The value under `code` in the first tag of the group, and only there.
pub open spec fn first_group_value(tags: Seq<Tag>, group: TagGroup, code: TagCode) -> Option<
    Seq<char>,
>
    decreases tags.len(),
{
    if tags.len() == 0 {
        None
    } else if tags[0].code == group {
        item_value(tags[0].list@, code)
    } else {
        first_group_value(tags.drop_first(), group, code)
    }
}

/// A copy of a string with the same view.
pub fn copy_string(s: &String) -> (r: String)
    ensures
        r@ == s@,
{
    s.clone()
}

/// A copy of a list of strings, element by element.
pub fn copy_strings(v: &Vec<String>) -> (r: Vec<String>)
    ensures
        r@.len() == v@.len(),
        forall|i: int| 0 <= i < v@.len() ==> (#[trigger] r@[i])@ == v@[i]@,
{
    let mut r: Vec<String> = Vec::new();
    let mut i: usize = 0;
    while i < v.len()
        invariant
            i <= v@.len(),
            r@.len() == i,
            forall|j: int| 0 <= j < i ==> (#[trigger] r@[j])@ == v@[j]@,
        decreases v.len() - i,
    {
        r.push(copy_string(&v[i]));
        i = i + 1;
    }
    r
}

/// Looks up the first entry with the code in one tag's list.
pub fn find_item_value(list: &Vec<TagItem>, code: TagCode) -> (r: Option<String>)
    ensures
        r is Some <==> item_value(list@, code) is Some,
        r is Some ==> r->0@ == item_value(list@, code)->0,
{
    let mut i: usize = 0;
    proof {
        assert(list@.subrange(0, list@.len() as int) =~= list@);
    }
    while i < list.len()
        invariant
            i <= list@.len(),
            item_value(list@, code) == item_value(list@.subrange(i as int, list@.len() as int), code),
        decreases list.len() - i,
    {
        proof {
            assert(list@.subrange(i as int, list@.len() as int).drop_first() =~= list@.subrange(
                i as int + 1,
                list@.len() as int,
            ));
        }
        if list[i].code == code {
            return Some(copy_string(&list[i].value));
        }
        i = i + 1;
    }
    None
}

/// The value under `code` in the first tag of `tag_type` that carries that
/// code; tags of other groups are passed over.
pub fn get_tag_value_from_list(tags: &Vec<Tag>, tag_type: TagGroup, item_code: TagCode) -> (r:
    Option<String>)
    ensures
        r is Some <==> tag_value(tags@, tag_type, item_code) is Some,
        r is Some ==> r->0@ == tag_value(tags@, tag_type, item_code)->0,
{
    let mut i: usize = 0;
    proof {
        assert(tags@.subrange(0, tags@.len() as int) =~= tags@);
    }
    while i < tags.len()
        invariant
            i <= tags@.len(),
            tag_value(tags@, tag_type, item_code) == tag_value(
                tags@.subrange(i as int, tags@.len() as int),
                tag_type,
                item_code,
            ),
        decreases tags.len() - i,
    {
        proof {
            assert(tags@.subrange(i as int, tags@.len() as int).drop_first() =~= tags@.subrange(
                i as int + 1,
                tags@.len() as int,
            ));
        }
        if tags[i].code == tag_type {
            let v = find_item_value(&tags[i].list, item_code);
            if v.is_some() {
                return v;
            }
        }
        i = i + 1;
    }
    None
}

/// The value under `search_item_tag_type` in the first tag of the group
/// `tag_descriptor_code`; `None` when that tag lacks it or no tag has the group.
pub fn get_search_tag_item_value(
    tag: &Vec<Tag>,
    tag_descriptor_code: TagGroup,
    search_item_tag_type: TagCode,
) -> (r: Option<String>)
    ensures
        r is Some <==> first_group_value(tag@, tag_descriptor_code, search_item_tag_type) is Some,
        r is Some ==> r->0@ == first_group_value(
            tag@,
            tag_descriptor_code,
            search_item_tag_type,
        )->0,
{
    let mut i: usize = 0;
    proof {
        assert(tag@.subrange(0, tag@.len() as int) =~= tag@);
    }
    while i < tag.len()
        invariant
            i <= tag@.len(),
            first_group_value(tag@, tag_descriptor_code, search_item_tag_type) == first_group_value(
                tag@.subrange(i as int, tag@.len() as int),
                tag_descriptor_code,
                search_item_tag_type,
            ),
        decreases tag.len() - i,
    {
        proof {
            assert(tag@.subrange(i as int, tag@.len() as int).drop_first() =~= tag@.subrange(
                i as int + 1,
                tag@.len() as int,
            ));
        }
        if tag[i].code == tag_descriptor_code {
            return find_item_value(&tag[i].list, search_item_tag_type);
        }
        i = i + 1;
    }
    None
}

/// A tag item built from a code and a value.
pub fn tag_item(code: TagCode, value: String) -> (r: TagItem)
    ensures
        r.code == code,
        r.value@ == value@,
{
    TagItem { code, value }
}

/// A tag with two entries.
pub fn pair_tag(group: TagGroup, c1: TagCode, v1: String, c2: TagCode, v2: String) -> (r: Tag)
    ensures
        r.code == group,
        r.list@.len() == 2,
        r.list@[0].code == c1 && r.list@[0].value@ == v1@,
        r.list@[1].code == c2 && r.list@[1].value@ == v2@,
{
    let mut list: Vec<TagItem> = Vec::new();
    list.push(tag_item(c1, v1));
    list.push(tag_item(c2, v2));
    Tag { code: group, list }
}

} // verus!
