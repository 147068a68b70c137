//! The order record and how it is read from a JSON document.

use crate::json::{document_views, parse_text, parsed_document, Json, JsonView};
use crate::timestamp::{instant_of_text, parse_instant, Timestamp};
use vstd::prelude::*;

verus! {

/// Anything that is found by an order identifier.
pub trait Uid {
    spec fn uid_text(&self) -> Seq<char>;

    fn uid(&self) -> (uid: &str)
        ensures
            uid@ == self.uid_text(),
    ;
}

/// Why a payload is not taken as an order.
#[derive(Debug, Clone, Copy, PartialEq, Eq)]
pub enum ParseError {
    /// The payload is not a JSON document.
    Syntax,
    /// A member of the order is missing or of another type than it should be.
    Schema,
    /// `date_created` is a text, but not a date and time.
    Date,
    /// The order's identifier is empty.
    EmptyUid,
}

/// Where an order is delivered.
#[derive(Debug, Clone, PartialEq, Eq)]
pub struct Delivery {
    pub name: String,
    pub phone: String,
    pub zip: String,
    pub city: String,
    pub address: String,
    pub region: String,
    pub email: String,
}

pub struct DeliveryView {
    pub name: Seq<char>,
    pub phone: Seq<char>,
    pub zip: Seq<char>,
    pub city: Seq<char>,
    pub address: Seq<char>,
    pub region: Seq<char>,
    pub email: Seq<char>,
}

impl View for Delivery {
    type V = DeliveryView;

    open spec fn view(&self) -> DeliveryView {
        DeliveryView {
            name: self.name@,
            phone: self.phone@,
            zip: self.zip@,
            city: self.city@,
            address: self.address@,
            region: self.region@,
            email: self.email@,
        }
    }
}

/// The delivery that an object states: each member a text.
pub open spec fn delivery_of(doc: JsonView) -> Option<DeliveryView> {
    if doc.text_member("name"@) is Some && doc.text_member("phone"@) is Some && doc.text_member(
        "zip"@,
    ) is Some && doc.text_member("city"@) is Some && doc.text_member("address"@) is Some
        && doc.text_member("region"@) is Some && doc.text_member("email"@) is Some {
        Some(
            DeliveryView {
                name: doc.text_member("name"@)->0,
                phone: doc.text_member("phone"@)->0,
                zip: doc.text_member("zip"@)->0,
                city: doc.text_member("city"@)->0,
                address: doc.text_member("address"@)->0,
                region: doc.text_member("region"@)->0,
                email: doc.text_member("email"@)->0,
            },
        )
    } else {
        None
    }
}

impl Delivery {
    /// Reads a delivery from an object.
    pub fn from_document(doc: &Json) -> (read: Option<Delivery>)
        ensures
            match read {
                Some(delivery) => delivery_of(doc@) == Some(delivery@),
                None => delivery_of(doc@) is None,
            },
    {
        let name: String = doc.get_text("name")?;
        let phone: String = doc.get_text("phone")?;
        let zip: String = doc.get_text("zip")?;
        let city: String = doc.get_text("city")?;
        let address: String = doc.get_text("address")?;
        let region: String = doc.get_text("region")?;
        let email: String = doc.get_text("email")?;
        Some(Delivery { name, phone, zip, city, address, region, email })
    }
}

/// How an order was paid.
#[derive(Debug, Clone, PartialEq, Eq)]
pub struct Payment {
    pub transaction: String,
    pub request_id: String,
    pub currency: String,
    pub provider: String,
    pub amount: i32,
    pub payment_dt: i32,
    pub bank: String,
    pub delivery_cost: i32,
    pub goods_total: i32,
    pub custom_fee: i32,
}

pub struct PaymentView {
    pub transaction: Seq<char>,
    pub request_id: Seq<char>,
    pub currency: Seq<char>,
    pub provider: Seq<char>,
    pub amount: int,
    pub payment_dt: int,
    pub bank: Seq<char>,
    pub delivery_cost: int,
    pub goods_total: int,
    pub custom_fee: int,
}

impl View for Payment {
    type V = PaymentView;

    open spec fn view(&self) -> PaymentView {
        PaymentView {
            transaction: self.transaction@,
            request_id: self.request_id@,
            currency: self.currency@,
            provider: self.provider@,
            amount: self.amount as int,
            payment_dt: self.payment_dt as int,
            bank: self.bank@,
            delivery_cost: self.delivery_cost as int,
            goods_total: self.goods_total as int,
            custom_fee: self.custom_fee as int,
        }
    }
}

/// The payment that an object states: five texts and five integers of 32
/// signed bits.
pub open spec fn payment_of(doc: JsonView) -> Option<PaymentView> {
    if doc.text_member("transaction"@) is Some && doc.text_member("request_id"@) is Some
        && doc.text_member("currency"@) is Some && doc.text_member("provider"@) is Some
        && doc.int32_member("amount"@) is Some && doc.int32_member("payment_dt"@) is Some
        && doc.text_member("bank"@) is Some && doc.int32_member("delivery_cost"@) is Some
        && doc.int32_member("goods_total"@) is Some && doc.int32_member("custom_fee"@) is Some {
        Some(
            PaymentView {
                transaction: doc.text_member("transaction"@)->0,
                request_id: doc.text_member("request_id"@)->0,
                currency: doc.text_member("currency"@)->0,
                provider: doc.text_member("provider"@)->0,
                amount: doc.int32_member("amount"@)->0,
                payment_dt: doc.int32_member("payment_dt"@)->0,
                bank: doc.text_member("bank"@)->0,
                delivery_cost: doc.int32_member("delivery_cost"@)->0,
                goods_total: doc.int32_member("goods_total"@)->0,
                custom_fee: doc.int32_member("custom_fee"@)->0,
            },
        )
    } else {
        None
    }
}

impl Payment {
    /// Reads a payment from an object.
    pub fn from_document(doc: &Json) -> (read: Option<Payment>)
        ensures
            match read {
                Some(payment) => payment_of(doc@) == Some(payment@),
                None => payment_of(doc@) is None,
            },
    {
        let transaction: String = doc.get_text("transaction")?;
        let request_id: String = doc.get_text("request_id")?;
        let currency: String = doc.get_text("currency")?;
        let provider: String = doc.get_text("provider")?;
        let amount: i32 = doc.get_int32("amount")?;
        let payment_dt: i32 = doc.get_int32("payment_dt")?;
        let bank: String = doc.get_text("bank")?;
        let delivery_cost: i32 = doc.get_int32("delivery_cost")?;
        let goods_total: i32 = doc.get_int32("goods_total")?;
        let custom_fee: i32 = doc.get_int32("custom_fee")?;
        Some(
            Payment {
                transaction,
                request_id,
                currency,
                provider,
                amount,
                payment_dt,
                bank,
                delivery_cost,
                goods_total,
                custom_fee,
            },
        )
    }
}

/// One line of an order.
#[derive(Debug, Clone, PartialEq, Eq)]
pub struct Item {
    pub chrt_id: i32,
    pub track_number: String,
    pub price: i32,
    pub rid: String,
    pub name: String,
    pub sale: i32,
    pub size: i32,
    pub total_price: i32,
    pub nm_id: i32,
    pub brand: String,
    pub status: i32,
}

pub struct ItemView {
    pub chrt_id: int,
    pub track_number: Seq<char>,
    pub price: int,
    pub rid: Seq<char>,
    pub name: Seq<char>,
    pub sale: int,
    pub size: int,
    pub total_price: int,
    pub nm_id: int,
    pub brand: Seq<char>,
    pub status: int,
}

impl View for Item {
    type V = ItemView;

    open spec fn view(&self) -> ItemView {
        ItemView {
            chrt_id: self.chrt_id as int,
            track_number: self.track_number@,
            price: self.price as int,
            rid: self.rid@,
            name: self.name@,
            sale: self.sale as int,
            size: self.size as int,
            total_price: self.total_price as int,
            nm_id: self.nm_id as int,
            brand: self.brand@,
            status: self.status as int,
        }
    }
}

/// The line that an object states: four texts and seven integers of 32
/// signed bits.
pub open spec fn item_of(doc: JsonView) -> Option<ItemView> {
    if doc.int32_member("chrt_id"@) is Some && doc.text_member("track_number"@) is Some
        && doc.int32_member("price"@) is Some && doc.text_member("rid"@) is Some
        && doc.text_member("name"@) is Some && doc.int32_member("sale"@) is Some
        && doc.int32_member("size"@) is Some && doc.int32_member("total_price"@) is Some
        && doc.int32_member("nm_id"@) is Some && doc.text_member("brand"@) is Some
        && doc.int32_member("status"@) is Some {
        Some(
            ItemView {
                chrt_id: doc.int32_member("chrt_id"@)->0,
                track_number: doc.text_member("track_number"@)->0,
                price: doc.int32_member("price"@)->0,
                rid: doc.text_member("rid"@)->0,
                name: doc.text_member("name"@)->0,
                sale: doc.int32_member("sale"@)->0,
                size: doc.int32_member("size"@)->0,
                total_price: doc.int32_member("total_price"@)->0,
                nm_id: doc.int32_member("nm_id"@)->0,
                brand: doc.text_member("brand"@)->0,
                status: doc.int32_member("status"@)->0,
            },
        )
    } else {
        None
    }
}

/// The lines that a list states, in its order; `None` where one of its items
/// states none.
pub open spec fn items_of(list: Seq<JsonView>) -> Option<Seq<ItemView>> {
    if forall|i: int| 0 <= i < list.len() ==> (#[trigger] item_of(list[i])) is Some {
        Some(Seq::new(list.len(), |i: int| item_of(list[i])->0))
    } else {
        None
    }
}

/// The views of some lines, in their order.
pub open spec fn item_views(items: Seq<Item>) -> Seq<ItemView> {
    Seq::new(items.len(), |i: int| items[i]@)
}

impl Item {
    /// Reads a line from an object.
    pub fn from_document(doc: &Json) -> (read: Option<Item>)
        ensures
            match read {
                Some(item) => item_of(doc@) == Some(item@),
                None => item_of(doc@) is None,
            },
    {
        let chrt_id: i32 = doc.get_int32("chrt_id")?;
        let track_number: String = doc.get_text("track_number")?;
        let price: i32 = doc.get_int32("price")?;
        let rid: String = doc.get_text("rid")?;
        let name: String = doc.get_text("name")?;
        let sale: i32 = doc.get_int32("sale")?;
        let size: i32 = doc.get_int32("size")?;
        let total_price: i32 = doc.get_int32("total_price")?;
        let nm_id: i32 = doc.get_int32("nm_id")?;
        let brand: String = doc.get_text("brand")?;
        let status: i32 = doc.get_int32("status")?;
        Some(
            Item {
                chrt_id,
                track_number,
                price,
                rid,
                name,
                sale,
                size,
                total_price,
                nm_id,
                brand,
                status,
            },
        )
    }

    /// Reads the lines of an order from a list of objects.
    pub fn list_from_documents(list: &Vec<Json>) -> (read: Option<Vec<Item>>)
        ensures
            match read {
                Some(items) => items_of(document_views(list@)) == Some(item_views(items@)),
                None => items_of(document_views(list@)) is None,
            },
    {
        let mut items: Vec<Item> = Vec::new();
        let mut at: usize = 0;
        while at < list.len()
            invariant
                at <= list.len(),
                items@.len() == at,
                forall|i: int|
                    0 <= i < at ==> (#[trigger] item_of(document_views(list@)[i])) == Some(
                        items@[i]@,
                    ),
            decreases list.len() - at,
        {
            match Item::from_document(&list[at]) {
                Some(item) => {
                    items.push(item);
                },
                None => {
                    assert(item_of(document_views(list@)[at as int]) is None);
                    return None;
                },
            }
            at = at + 1;
        }
        Some(items)
    }
}

/// An order, as the message channel carries it and the store keeps it.
#[derive(Debug, Clone, PartialEq, Eq)]
pub struct Order {
    pub order_uid: String,
    pub track_number: String,
    pub entry: String,
    pub delivery: Delivery,
    pub payment: Payment,
    pub items: Vec<Item>,
    pub locale: String,
    pub internal_signature: String,
    pub customer_id: String,
    pub delivery_service: String,
    pub shardkey: String,
    pub sm_id: i32,
    pub date_created: Timestamp,
    pub oof_shard: String,
}

pub struct OrderView {
    pub order_uid: Seq<char>,
    pub track_number: Seq<char>,
    pub entry: Seq<char>,
    pub delivery: DeliveryView,
    pub payment: PaymentView,
    pub items: Seq<ItemView>,
    pub locale: Seq<char>,
    pub internal_signature: Seq<char>,
    pub customer_id: Seq<char>,
    pub delivery_service: Seq<char>,
    pub shardkey: Seq<char>,
    pub sm_id: int,
    pub date_created: Timestamp,
    pub oof_shard: Seq<char>,
}

impl View for Order {
    type V = OrderView;

    open spec fn view(&self) -> OrderView {
        OrderView {
            order_uid: self.order_uid@,
            track_number: self.track_number@,
            entry: self.entry@,
            delivery: self.delivery@,
            payment: self.payment@,
            items: item_views(self.items@),
            locale: self.locale@,
            internal_signature: self.internal_signature@,
            customer_id: self.customer_id@,
            delivery_service: self.delivery_service@,
            shardkey: self.shardkey@,
            sm_id: self.sm_id as int,
            date_created: self.date_created,
            oof_shard: self.oof_shard@,
        }
    }
}

/// The delivery stated by the member `delivery`.
pub open spec fn delivery_member(doc: JsonView) -> Option<DeliveryView> {
    match doc.member("delivery"@) {
        Some(member) => delivery_of(member),
        None => None,
    }
}

/// The payment stated by the member `payment`.
pub open spec fn payment_member(doc: JsonView) -> Option<PaymentView> {
    match doc.member("payment"@) {
        Some(member) => payment_of(member),
        None => None,
    }
}

/// The lines stated by the member `items`, which is a list.
pub open spec fn items_member(doc: JsonView) -> Option<Seq<ItemView>> {
    match doc.list_member("items"@) {
        Some(list) => items_of(list),
        None => None,
    }
}

/// Whether an object has every member of an order but the date, each of its
/// type.
pub open spec fn well_typed(doc: JsonView) -> bool {
    &&& doc.text_member("order_uid"@) is Some
    &&& doc.text_member("track_number"@) is Some
    &&& doc.text_member("entry"@) is Some
    &&& delivery_member(doc) is Some
    &&& payment_member(doc) is Some
    &&& items_member(doc) is Some
    &&& doc.text_member("locale"@) is Some
    &&& doc.text_member("internal_signature"@) is Some
    &&& doc.text_member("customer_id"@) is Some
    &&& doc.text_member("delivery_service"@) is Some
    &&& doc.text_member("shardkey"@) is Some
    &&& doc.int32_member("sm_id"@) is Some
    &&& doc.text_member("oof_shard"@) is Some
}

/// The order that a well-typed object states, member for member, created at
/// `created`.
pub open spec fn order_of(doc: JsonView, created: Timestamp) -> OrderView {
    OrderView {
        order_uid: doc.text_member("order_uid"@)->0,
        track_number: doc.text_member("track_number"@)->0,
        entry: doc.text_member("entry"@)->0,
        delivery: delivery_member(doc)->0,
        payment: payment_member(doc)->0,
        items: items_member(doc)->0,
        locale: doc.text_member("locale"@)->0,
        internal_signature: doc.text_member("internal_signature"@)->0,
        customer_id: doc.text_member("customer_id"@)->0,
        delivery_service: doc.text_member("delivery_service"@)->0,
        shardkey: doc.text_member("shardkey"@)->0,
        sm_id: doc.int32_member("sm_id"@)->0,
        date_created: created,
        oof_shard: doc.text_member("oof_shard"@)->0,
    }
}

/// What reading `doc` as an order gives, where `created` is what the text of
/// its `date_created` was read as.
///
/// A document without that text fails on the schema whatever else it holds; a
/// text that is no date fails on the date; then the other members decide.
pub open spec fn decoded(doc: JsonView, created: Option<Timestamp>) -> Result<OrderView, ParseError> {
    if doc.text_member("date_created"@) is None {
        Err(ParseError::Schema)
    } else if created is None {
        Err(ParseError::Date)
    } else if !well_typed(doc) {
        Err(ParseError::Schema)
    } else {
        Ok(order_of(doc, created->0))
    }
}

/// What `date_created` of `doc` is read as.
pub open spec fn created_of(doc: JsonView) -> Option<Timestamp> {
    match doc.text_member("date_created"@) {
        Some(text) => instant_of_text(text),
        None => None,
    }
}

/// The order that a document states.
pub open spec fn order_of_document(doc: JsonView) -> Result<OrderView, ParseError> {
    decoded(doc, created_of(doc))
}

impl Order {
    fn read(doc: &Json, created: Timestamp) -> (read: Option<Order>)
        ensures
            match read {
                Some(order) => well_typed(doc@) && order@ == order_of(doc@, created),
                None => !well_typed(doc@),
            },
    {
        let order_uid: String = doc.get_text("order_uid")?;
        let track_number: String = doc.get_text("track_number")?;
        let entry: String = doc.get_text("entry")?;
        let delivery: Delivery = Delivery::from_document(doc.get("delivery")?)?;
        let payment: Payment = Payment::from_document(doc.get("payment")?)?;
        let items: Vec<Item> = Item::list_from_documents(doc.get_list("items")?)?;
        let locale: String = doc.get_text("locale")?;
        let internal_signature: String = doc.get_text("internal_signature")?;
        let customer_id: String = doc.get_text("customer_id")?;
        let delivery_service: String = doc.get_text("delivery_service")?;
        let shardkey: String = doc.get_text("shardkey")?;
        let sm_id: i32 = doc.get_int32("sm_id")?;
        let oof_shard: String = doc.get_text("oof_shard")?;
        Some(
            Order {
                order_uid,
                track_number,
                entry,
                delivery,
                payment,
                items,
                locale,
                internal_signature,
                customer_id,
                delivery_service,
                shardkey,
                sm_id,
                date_created: created,
                oof_shard,
            },
        )
    }

    /// Reads an order from a document, given what the text of its
    /// `date_created` was read as.
    pub fn decode(doc: &Json, created: Option<Timestamp>) -> (read: Result<Order, ParseError>)
        ensures
            match read {
                Ok(order) => decoded(doc@, created) == Ok::<OrderView, ParseError>(order@),
                Err(error) => decoded(doc@, created) == Err::<OrderView, ParseError>(error),
            },
    {
        if doc.get_text("date_created").is_none() {
            return Err(ParseError::Schema);
        }
        match created {
            None => Err(ParseError::Date),
            Some(at) => match Order::read(doc, at) {
                Some(order) => Ok(order),
                None => Err(ParseError::Schema),
            },
        }
    }

    /// Reads an order from a document.
    pub fn from_document(doc: &Json) -> (read: Result<Order, ParseError>)
        ensures
            match read {
                Ok(order) => order_of_document(doc@) == Ok::<OrderView, ParseError>(order@),
                Err(error) => order_of_document(doc@) == Err::<OrderView, ParseError>(error),
            },
    {
        let created: Option<Timestamp> = match doc.get_text("date_created") {
            Some(text) => parse_instant(text.as_str()),
            None => None,
        };
        Order::decode(doc, created)
    }
}

impl Uid for Order {
    open spec fn uid_text(&self) -> Seq<char> {
        self@.order_uid
    }

    fn uid(&self) -> (uid: &str) {
        self.order_uid.as_str()
    }
}

/// The record that a document states: its order, which has an identifier.
pub open spec fn record_of_document(doc: JsonView) -> Result<OrderView, ParseError> {
    match order_of_document(doc) {
        Ok(order) => if order.order_uid.len() == 0 {
            Err(ParseError::EmptyUid)
        } else {
            Ok(order)
        },
        Err(error) => Err(error),
    }
}

/// The record that a payload states.
pub open spec fn record_of_payload(payload: Seq<char>) -> Result<OrderView, ParseError> {
    match parsed_document(payload) {
        Some(doc) => record_of_document(doc),
        None => Err(ParseError::Syntax),
    }
}

/// An order as the store and the cache keep it: under its identifier, which is
/// the order's own and is not empty.
#[derive(Debug, PartialEq, Eq)]
pub struct OrderModel {
    uid: String,
    data: Order,
}

impl View for OrderModel {
    type V = OrderView;

    closed spec fn view(&self) -> OrderView {
        self.data@
    }
}

impl OrderModel {
    #[verifier::type_invariant]
    spec fn identified(self) -> bool {
        &&& self.uid@ == self.data@.order_uid
        &&& self.uid@.len() > 0
    }

    /// Files an order under its identifier. An order without one is refused.
    pub fn new(order: Order) -> (filed: Result<OrderModel, ParseError>)
        ensures
            match filed {
                Ok(model) => model@ == order@ && order@.order_uid.len() > 0,
                Err(error) => error == ParseError::EmptyUid && order@.order_uid.len() == 0,
            },
    {
        if order.order_uid.as_str().is_empty() {
            Err(ParseError::EmptyUid)
        } else {
            let uid: String = order.order_uid.clone();
            Ok(OrderModel { uid, data: order })
        }
    }

    /// Reads a record from a document.
    pub fn from_document(doc: &Json) -> (read: Result<OrderModel, ParseError>)
        ensures
            match read {
                Ok(model) => record_of_document(doc@) == Ok::<OrderView, ParseError>(model@),
                Err(error) => record_of_document(doc@) == Err::<OrderView, ParseError>(error),
            },
    {
        match Order::from_document(doc) {
            Ok(order) => OrderModel::new(order),
            Err(error) => Err(error),
        }
    }

    /// Reads a record from a payload: a JSON text.
    pub fn from_str(json: &str) -> (read: Result<OrderModel, ParseError>)
        ensures
            match read {
                Ok(model) => record_of_payload(json@) == Ok::<OrderView, ParseError>(model@),
                Err(error) => record_of_payload(json@) == Err::<OrderView, ParseError>(error),
            },
    {
        match parse_text(json) {
            Some(doc) => OrderModel::from_document(&doc),
            None => Err(ParseError::Syntax),
        }
    }

    /// The order of this record.
    pub fn data(&self) -> (order: &Order)
        ensures
            order@ == self@,
            order@.order_uid.len() > 0,
    {
        proof {
            use_type_invariant(self);
        }
        &self.data
    }
}

impl Uid for OrderModel {
    open spec fn uid_text(&self) -> Seq<char> {
        self@.order_uid
    }

    fn uid(&self) -> (uid: &str)
        ensures
            uid@.len() > 0,
    {
        proof {
            use_type_invariant(self);
        }
        self.uid.as_str()
    }
}

} // verus!
