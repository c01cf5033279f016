//! The b.ai endpoints that a browser session can read.
use super::CreditValues;
use crate::binary64::{of_integer, sum_of, Binary64};
use crate::http::{append_query, describe_status, is_success, status_text, url_with_query};
use crate::json::{
    double_field, elements, item_trees, json_of_text, name_texts, natural_field, open_record,
    open_record_fields, optional_field, parse_text, read_double, read_natural, read_optional_text,
    read_text, text_field, text_view, tree_view, Json, JsonTree,
};
use crate::snapshot::{check_view, ErrorModel, ProviderError};
use crate::text::{concat2, concat3, concat4, decimal, decimal_of, same};
use super::browser::number_at;
use vstd::prelude::*;

verus! {

pub const ORIGIN: &'static str = "https://chat.b.ai";

pub const REFERER: &'static str = "https://chat.b.ai/usage";

/// How many pages of orders are read at most.
pub const MAX_ORDER_PAGES: u64 = 100;

/// How many orders a page holds.
pub const ORDER_PAGE_SIZE: u64 = 100;

/// The URL of a call: the procedure in its path, the input in its query.
pub open spec fn call_url(base_url: Seq<char>, procedure: Seq<char>, input: Seq<char>) -> Result<Seq<char>, ErrorModel> {
    match url_with_query(base_url + "/trpc/lambda/"@ + procedure, "batch"@, "1"@, "input"@, input) {
        Ok(url) => Ok(url),
        Err(error) => Err(ErrorModel::Other("Invalid b.ai URL: "@ + error)),
    }
}

/// The URL of a procedure call, or why there is none.
pub fn trpc_url(base_url: &str, procedure: &str, input: &str) -> (r: Result<String, ProviderError>)
    ensures
        match call_url(base_url@, procedure@, input@) {
            Ok(url) => r is Ok && r->Ok_0@ == url,
            Err(error) => r is Err && r->Err_0@ == error,
        },
{
    let url = concat3(base_url, "/trpc/lambda/", procedure);
    match append_query(url.as_str(), "batch", "1", "input", input) {
        Ok(url) => Ok(url),
        Err(error) => Err(ProviderError::Other(concat2("Invalid b.ai URL: ", error.as_str()))),
    }
}

/// The input of a call without arguments.
pub fn empty_input() -> (r: String)
    ensures
        r@ == "{\"0\":{\"json\":null,\"meta\":{\"values\":[\"undefined\"],\"v\":1}}}"@,
{
    "{\"0\":{\"json\":null,\"meta\":{\"values\":[\"undefined\"],\"v\":1}}}".to_string()
}

/// What a call for a page of orders asks for.
pub open spec fn page_input(page: nat) -> Seq<char> {
    "{\"0\":{\"json\":{\"order\":\"desc\",\"page\":"@ + decimal(page)
        + ",\"pageSize\":100,\"sortBy\":\"createdAt\"}}}"@
}

/// The input of a call for a page of orders, newest first.
pub fn orders_input(page: u64) -> (r: String)
    ensures
        r@ == page_input(page as nat),
{
    let digits = decimal_of(page as u128);
    concat3(
        "{\"0\":{\"json\":{\"order\":\"desc\",\"page\":",
        digits.as_str(),
        ",\"pageSize\":100,\"sortBy\":\"createdAt\"}}}",
    )
}

/// Whether an answer with a status is read at all.
pub open spec fn status_error(status: u16, procedure: Seq<char>) -> Result<(), ErrorModel> {
    if status == 401 || status == 403 {
        Err(ErrorModel::AuthRequired)
    } else if !is_success(status) {
        Err(ErrorModel::Other("b.ai "@ + procedure + " returned HTTP "@ + status_text(status)))
    } else {
        Ok(())
    }
}

/// Refuses an answer that reports failure, before its body is looked at.
pub fn check_status(status: u16, procedure: &str) -> (r: Result<(), ProviderError>)
    requires
        100 <= status <= 999,
    ensures
        check_view(r) == status_error(status, procedure@),
{
    if status == 401 || status == 403 {
        return Err(ProviderError::AuthRequired);
    }
    if status < 200 || status >= 300 {
        let text = describe_status(status);
        return Err(ProviderError::Other(concat4("b.ai ", procedure, " returned HTTP ", text.as_str())));
    }
    Ok(())
}

/// An order of the funding history.
pub struct OrderRecord {
    pub status: String,
    pub order_type: String,
    pub recharge_type: String,
    pub recipient_relation: Option<String>,
    pub points: Binary64,
}

/// What an [`OrderRecord`] says.
pub ghost struct OrderModel {
    pub status: Seq<char>,
    pub order_type: Seq<char>,
    pub recharge_type: Seq<char>,
    pub recipient_relation: Option<Seq<char>>,
    pub points: Binary64,
}

impl View for OrderRecord {
    type V = OrderModel;

    open spec fn view(&self) -> OrderModel {
        OrderModel {
            status: self.status@,
            order_type: self.order_type@,
            recharge_type: self.recharge_type@,
            recipient_relation: text_view(self.recipient_relation),
            points: self.points,
        }
    }
}

pub open spec fn order_views(orders: Seq<OrderRecord>) -> Seq<OrderModel> {
    orders.map_values(|o: OrderRecord| o@)
}

/// A page of the funding history.
pub struct OrdersPayload {
    pub data: Vec<OrderRecord>,
    pub total: u64,
}

/// Balance and bonus.
#[derive(Clone, Copy, PartialEq, Eq, Structural, Debug)]
pub struct PointsPayload {
    pub points_balance: Binary64,
    pub points_expiring: Binary64,
}

/// What an order funds.
#[derive(Clone, Copy, PartialEq, Eq, Structural, Debug)]
pub enum Funding {
    Purchase,
    Bonus,
    Nothing,
}

/// A successful order of a positive amount for this account funds purchased or
/// bonus credits, by either of two classifications; others fund nothing.
pub open spec fn funding_of(order: OrderModel) -> Funding {
    if order.status != "success"@ || !order.points.finite() || order.points.at_most(of_integer(0)) || (
    order.recipient_relation is Some && order.recipient_relation->0 != "self"@) {
        Funding::Nothing
    } else if order.order_type == "purchase"@ || order.recharge_type == "fiat"@ {
        Funding::Purchase
    } else if order.order_type == "bonus"@ || order.recharge_type == "bonus"@ {
        Funding::Bonus
    } else {
        Funding::Nothing
    }
}

pub fn classify_order(order: &OrderRecord) -> (r: Funding)
    ensures
        r == funding_of(order@),
{
    let gifted = match &order.recipient_relation {
        Some(relation) => !same(relation.as_str(), "self"),
        None => false,
    };
    if !same(order.status.as_str(), "success") || !order.points.is_finite() || order.points.le(
        Binary64::from_integer(0),
    ) || gifted {
        Funding::Nothing
    } else if same(order.order_type.as_str(), "purchase") || same(order.recharge_type.as_str(), "fiat") {
        Funding::Purchase
    } else if same(order.order_type.as_str(), "bonus") || same(order.recharge_type.as_str(), "bonus") {
        Funding::Bonus
    } else {
        Funding::Nothing
    }
}

/// Purchased and bonus credits after some orders, added up in their order.
pub open spec fn totals_after(
    purchased: Binary64,
    bonus: Binary64,
    orders: Seq<OrderModel>,
) -> (Binary64, Binary64)
    decreases orders.len(),
{
    if orders.len() == 0 {
        (purchased, bonus)
    } else {
        let (p, b) = totals_after(purchased, bonus, orders.drop_last());
        match funding_of(orders.last()) {
            Funding::Purchase => (sum_of(p, orders.last().points), b),
            Funding::Bonus => (p, sum_of(b, orders.last().points)),
            Funding::Nothing => (p, b),
        }
    }
}

pub fn add_orders(purchased: Binary64, bonus: Binary64, orders: &Vec<OrderRecord>) -> (r: (Binary64, Binary64))
    ensures
        r == totals_after(purchased, bonus, order_views(orders@)),
{
    let ghost all = order_views(orders@);
    let mut p = purchased;
    let mut b = bonus;
    let mut i: usize = 0;
    proof {
        assert(all.take(0) =~= Seq::<OrderModel>::empty());
    }
    while i < orders.len()
        invariant
            i <= orders@.len(),
            all == order_views(orders@),
            (p, b) == totals_after(purchased, bonus, all.take(i as int)),
        decreases orders@.len() - i,
    {
        proof {
            assert(all.take(i + 1).drop_last() =~= all.take(i as int));
            assert(all.take(i + 1).last() == orders@[i as int]@);
        }
        match classify_order(&orders[i]) {
            Funding::Purchase => {
                p = p.plus(orders[i].points);
            },
            Funding::Bonus => {
                b = b.plus(orders[i].points);
            },
            Funding::Nothing => {},
        }
        i = i + 1;
    }
    proof {
        assert(all.take(i as int) =~= all);
    }
    (p, b)
}

/// Where the reading of the funding history stands.
#[derive(Clone, Copy, PartialEq, Eq, Structural, Debug)]
pub struct OrderReader {
    /// The page to read next.
    pub page: u64,
    pub purchased: Binary64,
    pub bonus: Binary64,
}

impl OrderReader {
    pub open spec fn wf(self) -> bool {
        1 <= self.page <= MAX_ORDER_PAGES
    }
}

/// What comes after a page.
#[derive(Clone, Copy, PartialEq, Eq, Structural, Debug)]
pub enum PageStep {
    /// Another page is to be read.
    More(OrderReader),
    /// The history is complete.
    Complete {
        purchased: Binary64,
        bonus: Binary64,
    },
}

/// What comes after a page of orders out of a total.
pub open spec fn step_after_page(reader: OrderReader, orders: Seq<OrderModel>, total: u64) -> Result<
    PageStep,
    ErrorModel,
> {
    let (purchased, bonus) = totals_after(reader.purchased, reader.bonus, orders);
    if reader.page * ORDER_PAGE_SIZE >= total {
        Ok(PageStep::Complete { purchased, bonus })
    } else if reader.page >= MAX_ORDER_PAGES {
        Err(ErrorModel::Parse("b.ai order history exceeds the bounded reader"@))
    } else {
        Ok(PageStep::More(OrderReader { page: (reader.page + 1) as u64, purchased, bonus }))
    }
}

/// Where the reading begins.
pub open spec fn first_reader() -> OrderReader {
    OrderReader { page: 1, purchased: of_integer(0), bonus: of_integer(0) }
}

impl OrderReader {
    pub fn new() -> (r: OrderReader)
        ensures
            r.wf(),
            r == first_reader(),
    {
        OrderReader { page: 1, purchased: Binary64::from_integer(0), bonus: Binary64::from_integer(0) }
    }

    /// Takes in a page. The history ends where the pages so far cover its total;
    /// one that is too long is refused.
    pub fn accept(self, orders: &OrdersPayload) -> (r: Result<PageStep, ProviderError>)
        requires
            self.wf(),
        ensures
            match step_after_page(self, order_views(orders.data@), orders.total) {
                Ok(step) => r is Ok && r->Ok_0 == step && (step is More ==> step->More_0.wf()),
                Err(error) => r is Err && r->Err_0@ == error,
            },
    {
        let (purchased, bonus) = add_orders(self.purchased, self.bonus, &orders.data);
        if self.page * ORDER_PAGE_SIZE >= orders.total {
            return Ok(PageStep::Complete { purchased, bonus });
        }
        if self.page >= MAX_ORDER_PAGES {
            return Err(ProviderError::parse("b.ai order history exceeds the bounded reader"));
        }
        Ok(PageStep::More(OrderReader { page: self.page + 1, purchased, bonus }))
    }
}

/// The totals that the answers of an account's endpoints add up to.
pub open spec fn account_totals(
    points: PointsPayload,
    monthly_spent: Binary64,
    purchased: Binary64,
    bonus: Binary64,
) -> CreditValues {
    CreditValues {
        balance: points.points_balance,
        bonus_remaining: points.points_expiring,
        monthly_spent,
        purchased_total: purchased,
        bonus_total: bonus,
        funded_total: sum_of(purchased, bonus),
    }
}

/// The totals of an account from what its endpoints said.
pub fn credit_values(points: PointsPayload, monthly_spent: Binary64, purchased: Binary64, bonus: Binary64) -> (r:
    CreditValues)
    ensures
        r == account_totals(points, monthly_spent, purchased, bonus),
{
    CreditValues {
        balance: points.points_balance,
        bonus_remaining: points.points_expiring,
        monthly_spent,
        purchased_total: purchased,
        bonus_total: bonus,
        funded_total: purchased.plus(bonus),
    }
}

/// The balance and the bonus that a value spells.
pub open spec fn points_in(tree: JsonTree) -> Option<PointsPayload> {
    match open_record(tree, seq!["points_balance"@, "points_expiring"@]) {
        Some(f) => match (double_field(f[0]), double_field(f[1])) {
            (Some(points_balance), Some(points_expiring)) => Some(PointsPayload { points_balance, points_expiring }),
            _ => None,
        },
        None => None,
    }
}

pub fn points_from_json(json: &Json) -> (r: Option<PointsPayload>)
    ensures
        r == points_in(json.tree()),
{
    let names: Vec<&str> = vec!["points_balance", "points_expiring"];
    proof {
        assert(name_texts(names@) =~= seq!["points_balance"@, "points_expiring"@]);
    }
    match open_record_fields(json, &names) {
        Some(f) => match (read_double(f[0]), read_double(f[1])) {
            (Some(points_balance), Some(points_expiring)) => Some(PointsPayload { points_balance, points_expiring }),
            _ => None,
        },
        None => None,
    }
}

/// The monthly spending that a value spells.
pub open spec fn spending_in(tree: JsonTree) -> Option<Binary64> {
    match open_record(tree, seq!["monthly_spent"@]) {
        Some(f) => double_field(f[0]),
        None => None,
    }
}

pub fn spending_from_json(json: &Json) -> (r: Option<Binary64>)
    ensures
        r == spending_in(json.tree()),
{
    let names: Vec<&str> = vec!["monthly_spent"];
    proof {
        assert(name_texts(names@) =~= seq!["monthly_spent"@]);
    }
    match open_record_fields(json, &names) {
        Some(f) => read_double(f[0]),
        None => None,
    }
}

/// A text that may be absent, in which case it is empty.
pub open spec fn default_text(field: Option<JsonTree>) -> Option<Seq<char>> {
    match field {
        None => Some(Seq::empty()),
        Some(_) => text_field(field),
    }
}

fn read_default_text(field: Option<&Json>) -> (r: Option<String>)
    ensures
        text_view(r) == default_text(tree_view(field)),
{
    match field {
        None => Some(String::new()),
        Some(_) => read_text(field),
    }
}

pub open spec fn order_names() -> Seq<Seq<char>> {
    seq!["status"@, "type"@, "rechargeType"@, "recipientRelation"@, "points"@]
}

/// The order that a value spells.
pub open spec fn order_in(tree: JsonTree) -> Option<OrderModel> {
    match open_record(tree, order_names()) {
        Some(f) => match (
            text_field(f[0]),
            default_text(f[1]),
            default_text(f[2]),
            optional_field(f[3], text_field(f[3])),
            double_field(f[4]),
        ) {
            (Some(status), Some(order_type), Some(recharge_type), Some(recipient_relation), Some(points)) => Some(
                OrderModel { status, order_type, recharge_type, recipient_relation, points },
            ),
            _ => None,
        },
        None => None,
    }
}

pub open spec fn order_view(o: Option<OrderRecord>) -> Option<OrderModel> {
    match o {
        Some(o) => Some(o@),
        None => None,
    }
}

pub fn order_from_json(json: &Json) -> (r: Option<OrderRecord>)
    ensures
        order_view(r) == order_in(json.tree()),
{
    let names: Vec<&str> = vec!["status", "type", "rechargeType", "recipientRelation", "points"];
    proof {
        assert(name_texts(names@) =~= order_names());
    }
    match open_record_fields(json, &names) {
        Some(f) => match (
            read_text(f[0]),
            read_default_text(f[1]),
            read_default_text(f[2]),
            read_optional_text(f[3]),
            read_double(f[4]),
        ) {
            (Some(status), Some(order_type), Some(recharge_type), Some(recipient_relation), Some(points)) => Some(
                OrderRecord { status, order_type, recharge_type, recipient_relation, points },
            ),
            _ => None,
        },
        None => None,
    }
}

/// The orders that a list spells, if every element spells one.
pub open spec fn orders_list(items: Seq<JsonTree>) -> Option<Seq<OrderModel>>
    decreases items.len(),
{
    if items.len() == 0 {
        Some(Seq::empty())
    } else {
        match (orders_list(items.drop_last()), order_in(items.last())) {
            (Some(before), Some(order)) => Some(before.push(order)),
            _ => None,
        }
    }
}

proof fn lemma_orders_prefix(items: Seq<JsonTree>, n: int)
    requires
        0 <= n <= items.len(),
        orders_list(items.take(n)) is None,
    ensures
        orders_list(items) is None,
    decreases items.len(),
{
    if n < items.len() {
        assert(items.drop_last().take(n) =~= items.take(n));
        lemma_orders_prefix(items.drop_last(), n);
    } else {
        assert(items.take(n) =~= items);
    }
}

fn orders_from_list(items: &Vec<Json>) -> (r: Option<Vec<OrderRecord>>)
    ensures
        match r {
            Some(orders) => orders_list(item_trees(items@)) == Some(order_views(orders@)),
            None => orders_list(item_trees(items@)) is None,
        },
{
    let ghost all = item_trees(items@);
    let mut orders: Vec<OrderRecord> = Vec::new();
    let mut i: usize = 0;
    proof {
        assert(all.take(0) =~= Seq::<JsonTree>::empty());
        assert(order_views(orders@) =~= Seq::<OrderModel>::empty());
    }
    while i < items.len()
        invariant
            i <= items@.len(),
            all == item_trees(items@),
            orders_list(all.take(i as int)) == Some(order_views(orders@)),
        decreases items@.len() - i,
    {
        let ghost before = order_views(orders@);
        proof {
            assert(all.take(i + 1).drop_last() =~= all.take(i as int));
            assert(all.take(i + 1).last() == items@[i as int].tree());
        }
        match order_from_json(&items[i]) {
            Some(order) => {
                orders.push(order);
                proof {
                    assert(order_views(orders@) =~= before.push(order@));
                }
            },
            None => {
                proof {
                    lemma_orders_prefix(all, i + 1);
                }
                return None;
            },
        }
        i = i + 1;
    }
    proof {
        assert(all.take(i as int) =~= all);
    }
    Some(orders)
}

/// The page of orders that a value spells.
pub open spec fn orders_in(tree: JsonTree) -> Option<(Seq<OrderModel>, u64)> {
    match open_record(tree, seq!["data"@, "total"@]) {
        Some(f) => match (f[0], natural_field(f[1])) {
            (Some(JsonTree::Array(items)), Some(total)) => match orders_list(items) {
                Some(orders) => Some((orders, total)),
                None => None,
            },
            _ => None,
        },
        None => None,
    }
}

pub open spec fn orders_view(o: Option<OrdersPayload>) -> Option<(Seq<OrderModel>, u64)> {
    match o {
        Some(o) => Some((order_views(o.data@), o.total)),
        None => None,
    }
}

pub fn orders_from_json(json: &Json) -> (r: Option<OrdersPayload>)
    ensures
        orders_view(r) == orders_in(json.tree()),
{
    let names: Vec<&str> = vec!["data", "total"];
    proof {
        assert(name_texts(names@) =~= seq!["data"@, "total"@]);
    }
    match open_record_fields(json, &names) {
        Some(f) => {
            let list = match f[0] {
                Some(list) => match elements(list) {
                    Some(items) => items,
                    None => return None,
                },
                None => return None,
            };
            match (orders_from_list(list), read_natural(f[1])) {
                (Some(data), Some(total)) => Some(OrdersPayload { data, total }),
                _ => None,
            }
        },
        None => None,
    }
}

/// What an answer carries.
#[derive(Clone, Copy, PartialEq, Eq, Structural, Debug)]
pub enum PayloadKind {
    Points,
    Spending,
    Orders,
}

/// A value is a payload of the kind.
pub open spec fn fits(kind: PayloadKind, tree: JsonTree) -> bool {
    match kind {
        PayloadKind::Points => points_in(tree) is Some,
        PayloadKind::Spending => spending_in(tree) is Some,
        PayloadKind::Orders => orders_in(tree) is Some,
    }
}

fn check_fits(kind: PayloadKind, json: &Json) -> (r: bool)
    ensures
        r == fits(kind, json.tree()),
{
    match kind {
        PayloadKind::Points => points_from_json(json).is_some(),
        PayloadKind::Spending => spending_from_json(json).is_some(),
        PayloadKind::Orders => orders_from_json(json).is_some(),
    }
}

/// The only field of a record.
pub open spec fn sole_field(tree: JsonTree, name: Seq<char>) -> Option<JsonTree> {
    match open_record(tree, seq![name]) {
        Some(f) => f[0],
        None => None,
    }
}

fn sole_member<'a>(json: &'a Json, name: &str) -> (r: Option<&'a Json>)
    ensures
        tree_view(r) == sole_field(json.tree(), name@),
{
    let names: Vec<&str> = vec![name];
    proof {
        assert(name_texts(names@) =~= seq![name@]);
    }
    match open_record_fields(json, &names) {
        Some(f) => f[0],
        None => None,
    }
}

/// The payload in an envelope.
pub open spec fn enveloped(tree: JsonTree) -> Option<JsonTree> {
    match sole_field(tree, "result"@) {
        Some(result) => match sole_field(result, "data"@) {
            Some(data) => sole_field(data, "json"@),
            None => None,
        },
        None => None,
    }
}

fn open_envelope<'a>(json: &'a Json) -> (r: Option<&'a Json>)
    ensures
        tree_view(r) == enveloped(json.tree()),
{
    match sole_member(json, "result") {
        Some(result) => match sole_member(result, "data") {
            Some(data) => sole_member(data, "json"),
            None => None,
        },
        None => None,
    }
}

/// The envelope holds a payload of the kind.
pub open spec fn envelope_fits(kind: PayloadKind, tree: JsonTree) -> bool {
    enveloped(tree) is Some && fits(kind, enveloped(tree)->0)
}

/// The payload of a batch of one, or what is wrong with the batch.
pub open spec fn payload_of(kind: PayloadKind, tree: JsonTree, procedure: Seq<char>) -> Result<JsonTree, ErrorModel> {
    match tree {
        JsonTree::Array(items) => if exists|i: int| 0 <= i < items.len() && !envelope_fits(kind, #[trigger] items[i]) {
            Err(malformed(procedure))
        } else if items.len() != 1 {
            Err(ErrorModel::Parse("b.ai "@ + procedure + " returned an unexpected batch size"@))
        } else {
            Ok(enveloped(items[0])->0)
        },
        _ => Err(malformed(procedure)),
    }
}

pub open spec fn malformed(procedure: Seq<char>) -> ErrorModel {
    ErrorModel::Parse("Failed to parse b.ai "@ + procedure + ": unexpected fields"@)
}

/// The payload of a batch of one.
pub fn payload_from_json<'a>(kind: PayloadKind, json: &'a Json, procedure: &str) -> (r: Result<
    &'a Json,
    ProviderError,
>)
    ensures
        match payload_of(kind, json.tree(), procedure@) {
            Ok(payload) => r is Ok && r->Ok_0.tree() == payload && fits(kind, payload),
            Err(error) => r is Err && r->Err_0@ == error,
        },
{
    let items = match elements(json) {
        Some(items) => items,
        None => return Err(
            ProviderError::Parse(concat3("Failed to parse b.ai ", procedure, ": unexpected fields")),
        ),
    };
    let ghost all = item_trees(items@);
    let mut i: usize = 0;
    while i < items.len()
        invariant
            i <= items@.len(),
            all == item_trees(items@),
            json.tree() == JsonTree::Array(all),
            forall|k: int| 0 <= k < i ==> envelope_fits(kind, #[trigger] all[k]),
        decreases items@.len() - i,
    {
        assert(all[i as int] == items@[i as int].tree());
        let fitting = match open_envelope(&items[i]) {
            Some(payload) => check_fits(kind, payload),
            None => false,
        };
        if !fitting {
            assert(!envelope_fits(kind, all[i as int]));
            return Err(ProviderError::Parse(concat3("Failed to parse b.ai ", procedure, ": unexpected fields")));
        }
        i = i + 1;
    }
    if items.len() != 1 {
        return Err(ProviderError::Parse(concat3("b.ai ", procedure, " returned an unexpected batch size")));
    }
    assert(all[0] == items@[0].tree());
    assert(envelope_fits(kind, all[0]));
    match open_envelope(&items[0]) {
        Some(payload) => Ok(payload),
        None => Err(ProviderError::Parse(concat3("Failed to parse b.ai ", procedure, ": unexpected fields"))),
    }
}

/// Reads the balance and the bonus from the body of an answer.
pub fn parse_points(body: &str, procedure: &str) -> (r: Result<PointsPayload, ProviderError>)
    ensures
        match json_of_text(body@) {
            Err(error) => r is Err && r->Err_0@ == ErrorModel::Parse(
                "Failed to parse b.ai "@ + procedure@ + ": "@ + error,
            ),
            Ok(tree) => match payload_of(PayloadKind::Points, tree, procedure@) {
                Ok(payload) => r is Ok && points_in(payload) == Some(r->Ok_0),
                Err(error) => r is Err && r->Err_0@ == error,
            },
        },
{
    let json = match parse_text(body) {
        Ok(json) => json,
        Err(error) => return Err(
            ProviderError::Parse(concat4("Failed to parse b.ai ", procedure, ": ", error.as_str())),
        ),
    };
    match payload_from_json(PayloadKind::Points, &json, procedure) {
        Ok(payload) => match points_from_json(payload) {
            Some(points) => Ok(points),
            None => Err(ProviderError::AuthRequired),
        },
        Err(error) => Err(error),
    }
}

/// Reads the monthly spending from the body of an answer.
pub fn parse_spending(body: &str, procedure: &str) -> (r: Result<Binary64, ProviderError>)
    ensures
        match json_of_text(body@) {
            Err(error) => r is Err && r->Err_0@ == ErrorModel::Parse(
                "Failed to parse b.ai "@ + procedure@ + ": "@ + error,
            ),
            Ok(tree) => match payload_of(PayloadKind::Spending, tree, procedure@) {
                Ok(payload) => r is Ok && spending_in(payload) == Some(r->Ok_0),
                Err(error) => r is Err && r->Err_0@ == error,
            },
        },
{
    let json = match parse_text(body) {
        Ok(json) => json,
        Err(error) => return Err(
            ProviderError::Parse(concat4("Failed to parse b.ai ", procedure, ": ", error.as_str())),
        ),
    };
    match payload_from_json(PayloadKind::Spending, &json, procedure) {
        Ok(payload) => match spending_from_json(payload) {
            Some(spent) => Ok(spent),
            None => Err(ProviderError::AuthRequired),
        },
        Err(error) => Err(error),
    }
}

/// Reads a page of orders from the body of an answer.
pub fn parse_orders(body: &str, procedure: &str) -> (r: Result<OrdersPayload, ProviderError>)
    ensures
        match json_of_text(body@) {
            Err(error) => r is Err && r->Err_0@ == ErrorModel::Parse(
                "Failed to parse b.ai "@ + procedure@ + ": "@ + error,
            ),
            Ok(tree) => match payload_of(PayloadKind::Orders, tree, procedure@) {
                Ok(payload) => r is Ok && orders_in(payload) == Some((order_views(r->Ok_0.data@), r->Ok_0.total)),
                Err(error) => r is Err && r->Err_0@ == error,
            },
        },
{
    let json = match parse_text(body) {
        Ok(json) => json,
        Err(error) => return Err(
            ProviderError::Parse(concat4("Failed to parse b.ai ", procedure, ": ", error.as_str())),
        ),
    };
    match payload_from_json(PayloadKind::Orders, &json, procedure) {
        Ok(payload) => match orders_from_json(payload) {
            Some(orders) => Ok(orders),
            None => Err(ProviderError::AuthRequired),
        },
        Err(error) => Err(error),
    }
}

/// Orders that are gifted to others, failed or empty leave the totals as they are.
pub proof fn law_other_orders_fund_nothing(
    purchased: Binary64,
    bonus: Binary64,
    orders: Seq<OrderModel>,
    order: OrderModel,
)
    requires
        order.status != "success"@ || !order.points.finite() || order.points.at_most(of_integer(0)) || (
        order.recipient_relation is Some && order.recipient_relation->0 != "self"@),
    ensures
        totals_after(purchased, bonus, orders.push(order)) == totals_after(purchased, bonus, orders),
{
    assert(orders.push(order).drop_last() =~= orders);
}

/// Reading a history page by page gives the totals of the whole history.
pub proof fn law_pages_add_up(purchased: Binary64, bonus: Binary64, page: Seq<OrderModel>, rest: Seq<OrderModel>)
    ensures
        ({
            let (p, b) = totals_after(purchased, bonus, page);
            totals_after(p, b, rest) == totals_after(purchased, bonus, page + rest)
        }),
    decreases rest.len(),
{
    let (p, b) = totals_after(purchased, bonus, page);
    if rest.len() == 0 {
        assert(page + rest =~= page);
    } else {
        law_pages_add_up(purchased, bonus, page, rest.drop_last());
        assert((page + rest).drop_last() =~= page + rest.drop_last());
        assert((page + rest).last() == rest.last());
    }
}

/// Balance and expiring bonus are the numbers under their keys, and so is the spending.
pub proof fn law_points_stand_under_their_keys(tree: JsonTree)
    requires
        tree is Object,
    ensures
        points_in(tree) is Some ==> number_at(tree, "points_balance"@) == Some(points_in(tree)->0.points_balance)
            && number_at(tree, "points_expiring"@) == Some(points_in(tree)->0.points_expiring),
        number_at(tree, "points_balance"@) is Some && number_at(tree, "points_expiring"@) is Some ==> points_in(
            tree,
        ) is Some,
        spending_in(tree) == number_at(tree, "monthly_spent"@),
{
    let names = seq!["points_balance"@, "points_expiring"@];
    assert(names[0] == "points_balance"@ && names[1] == "points_expiring"@);
    assert(seq!["monthly_spent"@][0] == "monthly_spent"@);
}

/// The text that an object holds under a key.
pub open spec fn text_at(tree: JsonTree, key: Seq<char>) -> Option<Seq<char>> {
    match tree {
        JsonTree::Object(_) => match tree.field(key) {
            Some(JsonTree::Text(s)) => Some(s),
            _ => None,
        },
        _ => None,
    }
}

/// An order is what stands under its keys. A classification that is left out is empty, and a
/// relation that is left out or null is none.
pub proof fn law_orders_stand_under_their_keys(tree: JsonTree)
    requires
        tree is Object,
        order_in(tree) is Some,
    ensures
        ({
            let order = order_in(tree)->0;
            &&& text_at(tree, "status"@) == Some(order.status)
            &&& number_at(tree, "points"@) == Some(order.points)
            &&& tree.field("type"@) is Some ==> text_at(tree, "type"@) == Some(order.order_type)
            &&& tree.field("type"@) is None ==> order.order_type.len() == 0
            &&& tree.field("rechargeType"@) is Some ==> text_at(tree, "rechargeType"@) == Some(order.recharge_type)
            &&& tree.field("rechargeType"@) is None ==> order.recharge_type.len() == 0
            &&& order.recipient_relation == text_at(tree, "recipientRelation"@)
        }),
{
    let names = order_names();
    assert(names[0] == "status"@ && names[1] == "type"@ && names[2] == "rechargeType"@ && names[3]
        == "recipientRelation"@ && names[4] == "points"@);
}

/// A page holds one order for each element of its data, in their order, and the total under
/// its key.
pub proof fn law_pages_hold_every_order(tree: JsonTree, i: int)
    requires
        tree is Object,
        orders_in(tree) is Some,
    ensures
        tree.field("data"@) is Some && tree.field("data"@)->0 is Array,
        (orders_in(tree)->0).0.len() == tree.field("data"@)->0->Array_0.len(),
        0 <= i < (orders_in(tree)->0).0.len() ==> order_in(tree.field("data"@)->0->Array_0[i]) == Some(
            (orders_in(tree)->0).0[i],
        ),
        tree.field("total"@) is Some && tree.field("total"@)->0 is Number,
        tree.field("total"@)->0->Number_0.natural == Some((orders_in(tree)->0).1),
{
    let names = seq!["data"@, "total"@];
    assert(names[0] == "data"@ && names[1] == "total"@);
    lemma_orders_each(tree.field("data"@)->0->Array_0, i);
}

proof fn lemma_orders_each(items: Seq<JsonTree>, i: int)
    requires
        orders_list(items) is Some,
    ensures
        orders_list(items)->0.len() == items.len(),
        0 <= i < items.len() ==> order_in(items[i]) == Some(orders_list(items)->0[i]),
    decreases items.len(),
{
    if items.len() > 0 {
        lemma_orders_each(items.drop_last(), i);
        if 0 <= i < items.len() - 1 {
            assert(items.drop_last()[i] == items[i]);
        }
    }
}

/// A paid order of this account adds its points to the purchased credits, whichever of the
/// two fields says so; a bonus order adds them to the bonus; neither touches the other.
pub proof fn law_orders_fund_what_they_say(
    purchased: Binary64,
    bonus: Binary64,
    orders: Seq<OrderModel>,
    order: OrderModel,
)
    requires
        order.status == "success"@,
        order.points.finite(),
        of_integer(0).less(order.points),
        order.recipient_relation is None || order.recipient_relation->0 == "self"@,
    ensures
        ({
            let (p, b) = totals_after(purchased, bonus, orders);
            let (q, c) = totals_after(purchased, bonus, orders.push(order));
            let paid = order.order_type == "purchase"@ || order.recharge_type == "fiat"@;
            let given = order.order_type == "bonus"@ || order.recharge_type == "bonus"@;
            &&& paid ==> q == sum_of(p, order.points) && c == b
            &&& given && !paid ==> q == p && c == sum_of(b, order.points)
            &&& !given && !paid ==> q == p && c == b
        }),
{
    assert(orders.push(order).drop_last() =~= orders);
}

/// Before any order nothing is funded.
pub proof fn law_no_orders_fund_nothing(purchased: Binary64, bonus: Binary64)
    ensures
        totals_after(purchased, bonus, Seq::empty()) == (purchased, bonus),
{
}

/// The payload of an answer is what its only element holds under `result`, `data` and `json`.
pub proof fn law_payloads_are_unwrapped(kind: PayloadKind, item: JsonTree, procedure: Seq<char>)
    requires
        item is Object,
        item.field("result"@) is Some && item.field("result"@)->0 is Object,
        item.field("result"@)->0.field("data"@) is Some && item.field("result"@)->0.field("data"@)->0 is Object,
    ensures
        ({
            let payload = item.field("result"@)->0.field("data"@)->0.field("json"@);
            &&& payload is Some && fits(kind, payload->0) ==> payload_of(
                kind,
                JsonTree::Array(seq![item]),
                procedure,
            ) == Ok::<JsonTree, ErrorModel>(payload->0)
            &&& payload is None || !fits(kind, payload->0) ==> payload_of(
                kind,
                JsonTree::Array(seq![item]),
                procedure,
            ) is Err
        }),
        payload_of(kind, JsonTree::Array(seq![item, item]), procedure) is Err,
        payload_of(kind, JsonTree::Array(Seq::empty()), procedure) is Err,
{
    assert(seq!["result"@][0] == "result"@ && seq!["data"@][0] == "data"@ && seq!["json"@][0] == "json"@);
    let items = seq![item];
    assert(items[0] == item);
}

/// The totals of an account: balance and bonus as the points say, the spending of the month,
/// what was purchased and given, and both together as the funding.
pub proof fn law_totals_keep_their_sources_apart(
    points: PointsPayload,
    monthly_spent: Binary64,
    purchased: Binary64,
    bonus: Binary64,
)
    ensures
        ({
            let v = account_totals(points, monthly_spent, purchased, bonus);
            &&& v.balance == points.points_balance
            &&& v.bonus_remaining == points.points_expiring
            &&& v.monthly_spent == monthly_spent
            &&& v.purchased_total == purchased
            &&& v.bonus_total == bonus
            &&& v.funded_total == sum_of(purchased, bonus)
        }),
{
}

/// A history is read on until its pages of a hundred cover the total, and each page counts
/// toward the totals. After a hundred pages there is an end.
pub proof fn law_histories_are_read_to_their_end(reader: OrderReader, orders: Seq<OrderModel>, total: u64)
    requires
        reader.wf(),
    ensures
        ({
            let step = step_after_page(reader, orders, total);
            let (purchased, bonus) = totals_after(reader.purchased, reader.bonus, orders);
            &&& total <= 100 * reader.page ==> step == Ok::<PageStep, ErrorModel>(
                PageStep::Complete { purchased, bonus },
            )
            &&& total > 100 * reader.page && reader.page < 100 ==> {
                &&& step is Ok && step->Ok_0 is More
                &&& step->Ok_0->More_0.page == reader.page + 1
                &&& step->Ok_0->More_0.purchased == purchased
                &&& step->Ok_0->More_0.bonus == bonus
            }
            &&& total > 10_000 && reader.page == 100 ==> step is Err
        }),
{
}

/// A call names its procedure in the path and hands its input over in the query; what has no URL
/// is an error that says why.
pub proof fn law_calls_name_their_procedure(base: Seq<char>, procedure: Seq<char>, input: Seq<char>)
    ensures
        ({
            let url = url_with_query(base + "/trpc/lambda/"@ + procedure, "batch"@, "1"@, "input"@, input);
            &&& url is Ok ==> call_url(base, procedure, input) == Ok::<Seq<char>, ErrorModel>(url->Ok_0)
            &&& url is Err ==> call_url(base, procedure, input) == Err::<Seq<char>, ErrorModel>(
                ErrorModel::Other("Invalid b.ai URL: "@ + url->Err_0),
            )
        }),
{
}

/// The input for a page names the page by its number, between the order and the size of a page,
/// which is the one that full pages are told by.
pub proof fn law_page_inputs_name_their_page(page: nat)
    ensures
        page_input(page) == "{\"0\":{\"json\":{\"order\":\"desc\",\"page\":"@ + decimal(page) + ",\"pageSize\":"@
            + decimal(ORDER_PAGE_SIZE as nat) + ",\"sortBy\":\"createdAt\"}}}"@,
{
    reveal_strlit(",\"pageSize\":100,\"sortBy\":\"createdAt\"}}}");
    reveal_strlit(",\"pageSize\":");
    reveal_strlit(",\"sortBy\":\"createdAt\"}}}");
    crate::text::law_decimals_spell_their_number(100);
    assert(decimal(1) =~= seq!['1']);
    assert(decimal(10) =~= seq!['1', '0']);
    assert(decimal(100) =~= seq!['1', '0', '0']);
    assert(",\"pageSize\":"@ + decimal(100) + ",\"sortBy\":\"createdAt\"}}}"@
        =~= ",\"pageSize\":100,\"sortBy\":\"createdAt\"}}}"@);
    assert(page_input(page) =~= "{\"0\":{\"json\":{\"order\":\"desc\",\"page\":"@ + decimal(page)
        + ",\"pageSize\":"@ + decimal(ORDER_PAGE_SIZE as nat) + ",\"sortBy\":\"createdAt\"}}}"@);
}

/// An answer is read where its status is in the two hundreds; one that lacks a session asks for
/// it, and any other names the procedure and the status.
pub proof fn law_refusals_are_told_apart(status: u16, procedure: Seq<char>)
    ensures
        status_error(status, procedure) is Ok <==> 200 <= status < 300,
        status_error(401, procedure) == Err::<(), ErrorModel>(ErrorModel::AuthRequired),
        status_error(403, procedure) == Err::<(), ErrorModel>(ErrorModel::AuthRequired),
        !(200 <= status < 300) && status != 401 && status != 403 ==> status_error(status, procedure) == Err::<
            (),
            ErrorModel,
        >(ErrorModel::Other("b.ai "@ + procedure + " returned HTTP "@ + status_text(status))),
{
}

/// An order is read wherever it holds what it needs; a relation may be null, a classification may
/// only be left out.
pub proof fn law_complete_orders_are_read(tree: JsonTree)
    requires
        tree is Object,
    ensures
        order_in(tree) is Some <==> {
            let relation = tree.field("recipientRelation"@);
            &&& text_at(tree, "status"@) is Some && number_at(tree, "points"@) is Some
            &&& tree.field("type"@) is None || text_at(tree, "type"@) is Some
            &&& tree.field("rechargeType"@) is None || text_at(tree, "rechargeType"@) is Some
            &&& relation is None || relation->0 == JsonTree::Null || relation->0 is Text
        },
{
    let names = order_names();
    assert(names[0] == "status"@ && names[1] == "type"@ && names[2] == "rechargeType"@ && names[3]
        == "recipientRelation"@ && names[4] == "points"@);
}

/// What is no answer, a batch of another size and a history that is too long are named. A reader
/// stands on one of a hundred pages.
pub proof fn law_odd_answers_are_named(
    kind: PayloadKind,
    tree: JsonTree,
    procedure: Seq<char>,
    reader: OrderReader,
    orders: Seq<OrderModel>,
    total: u64,
)
    ensures
        malformed(procedure) == ErrorModel::Parse("Failed to parse b.ai "@ + procedure + ": unexpected fields"@),
        !(tree is Array) ==> payload_of(kind, tree, procedure) == Err::<JsonTree, ErrorModel>(malformed(procedure)),
        payload_of(kind, JsonTree::Array(Seq::empty()), procedure) == Err::<JsonTree, ErrorModel>(
            ErrorModel::Parse("b.ai "@ + procedure + " returned an unexpected batch size"@),
        ),
        reader.page == 100 && total > 10_000 ==> step_after_page(reader, orders, total) == Err::<PageStep, ErrorModel>(
            ErrorModel::Parse("b.ai order history exceeds the bounded reader"@),
        ),
        reader.wf() <==> 1 <= reader.page <= 100,
{
}

/// A history is read from its first page on, with nothing funded before it; a history that fits
/// one page is complete after it.
pub proof fn law_histories_begin_with_the_first_page(orders: Seq<OrderModel>, total: u64)
    requires
        total <= 100,
    ensures
        first_reader().page == 1,
        ({
            let (purchased, bonus) = totals_after(of_integer(0), of_integer(0), orders);
            step_after_page(first_reader(), orders, total) == Ok::<PageStep, ErrorModel>(
                PageStep::Complete { purchased, bonus },
            )
        }),
{
}

/// Calls come from the usage page of the service.
pub proof fn law_calls_come_from_the_usage_page()
    ensures
        ORIGIN@ == "https://chat.b.ai"@,
        REFERER@ == ORIGIN@ + "/usage"@,
{
    reveal_strlit("https://chat.b.ai");
    reveal_strlit("https://chat.b.ai/usage");
    reveal_strlit("/usage");
    assert(REFERER@ =~= ORIGIN@ + "/usage"@);
}

} // verus!
