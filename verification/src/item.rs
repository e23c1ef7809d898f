use vstd::prelude::*;
use crate::error::Error;
use crate::request::{MetaValue, MetaView};
use crate::strmap::{Duplicate, StrMap};

verus! {

/// A dynamic item that can hold any key-value pairs
#[derive(Debug)]
pub struct DynamicItem {
    /// The type of the item
    pub item_type_name: String,
    /// The fields of the item
    pub fields: StrMap<MetaValue>,
}

/// The view of a dynamic item: its type name and its fields.
pub struct ItemView {
    pub item_type_name: Seq<char>,
    pub fields: Map<Seq<char>, MetaView>,
}

impl View for DynamicItem {
    type V = ItemView;

    open spec fn view(&self) -> ItemView {
        ItemView { item_type_name: self.item_type_name@, fields: self.fields@ }
    }
}

/// The object an item is written as: its fields, with its type name under "_type" unless a
/// field of that name takes its place.
pub open spec fn item_object(v: ItemView) -> Map<Seq<char>, MetaView> {
    Map::empty().insert("_type"@, MetaView::Text(v.item_type_name)).union_prefer_right(v.fields)
}

impl DynamicItem {
    /// Create a new dynamic item with no fields
    pub fn new(item_type_name: &str) -> (r: Self)
        ensures
            r@ == (ItemView { item_type_name: item_type_name@, fields: Map::empty() }),
    {
        DynamicItem { item_type_name: item_type_name.to_owned(), fields: StrMap::new() }
    }

    /// Set a field value; gives the item back for further calls.
    pub fn set(&mut self, key: &str, value: MetaValue) -> (r: &mut Self)
        ensures
            (*r)@ == (ItemView { fields: old(self)@.fields.insert(key@, value@), ..old(self)@ }),
            final(self)@ == final(r)@,
    {
        self.fields.insert(key.to_owned(), value);
        self
    }

    /// Get a field value
    pub fn get(&self, key: &str) -> (r: Option<&MetaValue>)
        ensures
            match r {
                Some(v) => self@.fields.contains_key(key@) && v@ == self@.fields[key@],
                None => !self@.fields.contains_key(key@),
            },
    {
        self.fields.get(key)
    }

    /// Check if a field exists
    pub fn has_field(&self, key: &str) -> (r: bool)
        ensures
            r == self@.fields.contains_key(key@),
    {
        self.fields.contains_key(key)
    }

    /// The item as an object: its type name under "_type", then its fields.
    pub fn as_object(&self) -> (r: Result<StrMap<MetaValue>, Error>)
        ensures
            r matches Ok(m) && m@ == item_object(self@),
    {
        let mut m: StrMap<MetaValue> = StrMap::new();
        m.insert(String::from_str("_type"), MetaValue::Text(self.item_type_name.clone()));
        m.extend_from(&self.fields);
        Ok(m)
    }

    /// The item type of dynamic items.
    pub fn item_type(&self) -> (r: &'static str)
        ensures
            r@ == "dynamic_item"@,
    {
        "dynamic_item"
    }

    /// A copy with the same type name and fields.
    pub fn duplicate(&self) -> (r: Self)
        ensures
            r@ == self@,
    {
        DynamicItem { item_type_name: self.item_type_name.clone(), fields: self.fields.duplicate() }
    }
}

impl Duplicate for DynamicItem {
    fn duplicate(&self) -> (r: DynamicItem) {
        DynamicItem::duplicate(self)
    }
}

impl Clone for DynamicItem {
    fn clone(&self) -> (r: Self)
        ensures
            r@ == self@,
    {
        self.duplicate()
    }
}

} // verus!
