//! The built-in tools' rules: which arguments they need, what they answer,
//! and the sample data of the demonstration business backend.

use crate::error::AgentError;
use crate::fields::{entries_view, lookup, lookup_or, JsonFields};
use crate::text::{
    concat2, concat3, contains_part, decimal, decimal_string, has_prefix, has_suffix,
    lemma_contains_extend, lemma_contains_middle, lemma_contains_three, lemma_prefix_extend,
    lemma_suffix_two, same_text,
};
use crate::types::ToolDefinition;
use vstd::prelude::*;

verus! {

/// The text a missing argument's error carries: `{tool}: missing '{arg}'`.
pub open spec fn missing_arg_text(tool: Seq<char>, arg: Seq<char>) -> Seq<char> {
    tool + ": missing '"@ + arg + "'"@
}

/// A string argument that a tool requires; its absence is a tool error.
pub fn required_arg(args: &JsonFields, tool: &str, arg: &str) -> (r: Result<String, AgentError>)
    ensures
        match lookup(args.entries@, arg@) {
            Some(v) => r matches Ok(s) && s@ == v,
            None => r matches Err(AgentError::Tool(m)) && m@ == missing_arg_text(tool@, arg@),
        },
{
    match args.get_str(arg) {
        Some(v) => Ok(v),
        None => {
            let head = concat3(tool, ": missing '", arg);
            Err(AgentError::Tool(concat2(head.as_str(), "'")))
        },
    }
}

/// A tool description with the given name, description and parameter schema.
fn definition_of(name: &str, description: &str, parameters: serde_json::Value) -> (d: ToolDefinition)
    ensures
        d.name@ == name@,
        d.description@ == description@,
        d.parameters == parameters,
{
    ToolDefinition {
        name: String::from_str(name),
        description: String::from_str(description),
        parameters,
    }
}

// ---------------------------------------------------------------------------
// Transfer to a human agent
// ---------------------------------------------------------------------------

/// Marker that opens the result of a transfer.
pub open spec fn transfer_marker() -> Seq<char> {
    "<<TRANSFER>>"@
}

/// The transfer tool: the exit of the agent towards a human agent. It formats
/// the reason and the reply that the model chose and marks the transfer.
#[derive(Debug, Clone, Copy)]
pub struct TransferToHumanTool;

/// The result of a transfer with the given reason and reply.
pub open spec fn transfer_text(reason: Seq<char>, reply: Seq<char>) -> Seq<char> {
    transfer_marker() + "\n原因："@ + reason + "\n话术："@ + reply
}

/// A transfer's result opens with the marker, shows the reason after its
/// label up to the reply's label, and ends with the reply after its label.
pub proof fn lemma_transfer_answer_fields(reason: Seq<char>, reply: Seq<char>)
    ensures
        has_prefix(transfer_text(reason, reply), transfer_marker()),
        contains_part(transfer_text(reason, reply), "\n原因："@ + reason + "\n话术："@),
        has_suffix(transfer_text(reason, reply), "\n话术："@ + reply),
{
    let (m, l1, l2) = (transfer_marker(), "\n原因："@, "\n话术："@);
    let t = m + l1 + reason + l2 + reply;
    assert(t == transfer_text(reason, reply));
    assert(m.take(m.len() as int) =~= m);
    lemma_prefix_extend(m, m, l1);
    lemma_prefix_extend(m + l1, m, reason);
    lemma_prefix_extend(m + l1 + reason, m, l2);
    lemma_prefix_extend(m + l1 + reason + l2, m, reply);
    lemma_contains_three(m, l1, reason, l2);
    lemma_contains_extend(m + l1 + reason + l2, l1 + reason + l2, reply);
    lemma_suffix_two(m + l1 + reason, l2, reply);
}

impl TransferToHumanTool {
    /// The tool.
    pub fn new() -> (t: Self) {
        TransferToHumanTool
    }

    /// The tool's description, with the given parameter schema.
    pub fn definition(&self, parameters: serde_json::Value) -> (d: ToolDefinition)
        ensures
            d.name@ == "transfer_to_human"@,
            d.description@ == "转接人工客服"@,
            d.parameters == parameters,
    {
        definition_of("transfer_to_human", "转接人工客服", parameters)
    }

    /// Runs the tool: both `reason` and `reply` are required, the reason is
    /// checked first.
    pub fn execute(&self, args: &JsonFields) -> (r: Result<String, AgentError>)
        ensures
            match (lookup(args.entries@, "reason"@), lookup(args.entries@, "reply"@)) {
                (None, _) => r matches Err(AgentError::Tool(m)) && m@ == missing_arg_text(
                    "transfer_to_human"@,
                    "reason"@,
                ),
                (Some(_), None) => r matches Err(AgentError::Tool(m)) && m@ == missing_arg_text(
                    "transfer_to_human"@,
                    "reply"@,
                ),
                (Some(a), Some(b)) => r matches Ok(s) && s@ == transfer_text(a, b),
            },
    {
        let reason = match required_arg(args, "transfer_to_human", "reason") {
            Ok(v) => v,
            Err(e) => return Err(e),
        };
        let reply = match required_arg(args, "transfer_to_human", "reply") {
            Ok(v) => v,
            Err(e) => return Err(e),
        };
        let a = concat3("<<TRANSFER>>", "\n原因：", reason.as_str());
        let b = concat3(a.as_str(), "\n话术：", reply.as_str());
        Ok(b)
    }
}

// ---------------------------------------------------------------------------
// Business queries
// ---------------------------------------------------------------------------

/// Shown for a field the backend did not return.
pub open spec fn unknown() -> Seq<char> {
    "未知"@
}

/// The answer of an order query: a notice when the order is unknown,
/// otherwise its number, status, amount and creation time.
pub open spec fn order_text(order_id: Seq<char>, data: Option<Seq<(String, String)>>) -> Seq<char> {
    match data {
        None => "未找到订单 "@ + order_id + "，请核对订单号或转人工核实。"@,
        Some(d) => "订单查询成功："@ + "\n订单号："@ + lookup_or(d, "order_id"@, order_id) + "\n状态："@
            + lookup_or(d, "status"@, unknown()) + "\n金额："@ + lookup_or(d, "amount"@, unknown())
            + "\n下单时间："@ + lookup_or(d, "created_at"@, unknown()),
    }
}

/// The answer of a refund query.
pub open spec fn refund_text(refund_id: Seq<char>, data: Option<Seq<(String, String)>>) -> Seq<char> {
    match data {
        None => "未找到退款单 "@ + refund_id + "，请核对退款单号或转人工核实。"@,
        Some(d) => "退款查询成功："@ + "\n退款单号："@ + lookup_or(d, "refund_id"@, refund_id) + "\n状态："@
            + lookup_or(d, "status"@, unknown()) + "\n金额："@ + lookup_or(d, "amount"@, unknown())
            + "\n原因："@ + lookup_or(d, "reason"@, unknown()) + "\n进度："@ + lookup_or(
            d,
            "progress"@,
            unknown(),
        ),
    }
}

/// The answer of a complaint query.
pub open spec fn complaint_text(complaint_id: Seq<char>, data: Option<Seq<(String, String)>>) -> Seq<
    char,
> {
    match data {
        None => "未找到投诉单 "@ + complaint_id + "，请核对投诉单号或转人工核实。"@,
        Some(d) => "投诉查询成功："@ + "\n投诉单号："@ + lookup_or(d, "complaint_id"@, complaint_id)
            + "\n状态："@ + lookup_or(d, "status"@, unknown()) + "\n渠道："@ + lookup_or(
            d,
            "channel"@,
            unknown(),
        ) + "\n进度："@ + lookup_or(d, "progress"@, unknown()) + "\n责任人："@ + lookup_or(
            d,
            "owner"@,
            unknown(),
        ),
    }
}

/// The answer of an order query reports each field of a found order after its
/// own label, up to the next label: the number (the queried one when the
/// record has none), the status, the amount and the creation time, each shown
/// as `未知` when the record lacks it. An unknown order's notice names the
/// queried number.
pub proof fn lemma_order_answer_fields(order_id: Seq<char>, d: Seq<(String, String)>)
    ensures
        has_prefix(order_text(order_id, Some(d)), "订单查询成功：\n订单号："@ + lookup_or(d, "order_id"@, order_id) + "\n状态："@),
        contains_part(order_text(order_id, Some(d)), "\n状态："@ + lookup_or(d, "status"@, unknown()) + "\n金额："@),
        contains_part(order_text(order_id, Some(d)), "\n金额："@ + lookup_or(d, "amount"@, unknown()) + "\n下单时间："@),
        has_suffix(order_text(order_id, Some(d)), "\n下单时间："@ + lookup_or(d, "created_at"@, unknown())),
        contains_part(order_text(order_id, None), order_id),
{
    let id = lookup_or(d, "order_id"@, order_id);
    let st = lookup_or(d, "status"@, unknown());
    let am = lookup_or(d, "amount"@, unknown());
    let ct = lookup_or(d, "created_at"@, unknown());
    let (l0, l1, l2, l3, l4) = ("订单查询成功："@, "\n订单号："@, "\n状态："@, "\n金额："@, "\n下单时间："@);
    let p1 = l0 + l1 + id;
    let p2 = p1 + l2 + st;
    let p3 = p2 + l3 + am;
    let t = p3 + l4 + ct;
    assert(t == order_text(order_id, Some(d)));
    assert(l0 + l1 =~= "订单查询成功：\n订单号："@) by {
        reveal_strlit("订单查询成功：");
        reveal_strlit("\n订单号：");
        reveal_strlit("订单查询成功：\n订单号：");
    }
    assert((p1 + l2).take((p1 + l2).len() as int) =~= p1 + l2);
    lemma_prefix_extend(p1 + l2, p1 + l2, st);
    lemma_prefix_extend(p2, p1 + l2, l3);
    lemma_prefix_extend(p2 + l3, p1 + l2, am);
    lemma_prefix_extend(p3, p1 + l2, l4);
    lemma_prefix_extend(p3 + l4, p1 + l2, ct);
    lemma_contains_three(p1, l2, st, l3);
    lemma_contains_extend(p2 + l3, l2 + st + l3, am);
    lemma_contains_extend(p3, l2 + st + l3, l4);
    lemma_contains_extend(p3 + l4, l2 + st + l3, ct);
    lemma_contains_three(p2, l3, am, l4);
    lemma_contains_extend(p3 + l4, l3 + am + l4, ct);
    lemma_suffix_two(p3, l4, ct);
    lemma_contains_middle("未找到订单 "@, order_id, "，请核对订单号或转人工核实。"@);
}

/// The answer of a refund query reports each field of a found refund after
/// its own label, up to the next label: the number (the queried one when the
/// record has none), the status, the amount, the reason and the progress,
/// each shown as `未知` when the record lacks it. An unknown refund's notice
/// names the queried number.
pub proof fn lemma_refund_answer_fields(refund_id: Seq<char>, d: Seq<(String, String)>)
    ensures
        has_prefix(refund_text(refund_id, Some(d)), "退款查询成功：\n退款单号："@ + lookup_or(d, "refund_id"@, refund_id) + "\n状态："@),
        contains_part(refund_text(refund_id, Some(d)), "\n状态："@ + lookup_or(d, "status"@, unknown()) + "\n金额："@),
        contains_part(refund_text(refund_id, Some(d)), "\n金额："@ + lookup_or(d, "amount"@, unknown()) + "\n原因："@),
        contains_part(refund_text(refund_id, Some(d)), "\n原因："@ + lookup_or(d, "reason"@, unknown()) + "\n进度："@),
        has_suffix(refund_text(refund_id, Some(d)), "\n进度："@ + lookup_or(d, "progress"@, unknown())),
        contains_part(refund_text(refund_id, None), refund_id),
{
    let id = lookup_or(d, "refund_id"@, refund_id);
    let st = lookup_or(d, "status"@, unknown());
    let am = lookup_or(d, "amount"@, unknown());
    let rs = lookup_or(d, "reason"@, unknown());
    let pg = lookup_or(d, "progress"@, unknown());
    let (l0, l1, l2, l3, l4, l5) = ("退款查询成功："@, "\n退款单号："@, "\n状态："@, "\n金额："@, "\n原因："@, "\n进度："@);
    let p1 = l0 + l1 + id;
    let p2 = p1 + l2 + st;
    let p3 = p2 + l3 + am;
    let p4 = p3 + l4 + rs;
    let t = p4 + l5 + pg;
    assert(t == refund_text(refund_id, Some(d)));
    assert(l0 + l1 =~= "退款查询成功：\n退款单号："@) by {
        reveal_strlit("退款查询成功：");
        reveal_strlit("\n退款单号：");
        reveal_strlit("退款查询成功：\n退款单号：");
    }
    assert((p1 + l2).take((p1 + l2).len() as int) =~= p1 + l2);
    lemma_prefix_extend(p1 + l2, p1 + l2, st);
    lemma_prefix_extend(p2, p1 + l2, l3);
    lemma_prefix_extend(p2 + l3, p1 + l2, am);
    lemma_prefix_extend(p3, p1 + l2, l4);
    lemma_prefix_extend(p3 + l4, p1 + l2, rs);
    lemma_prefix_extend(p4, p1 + l2, l5);
    lemma_prefix_extend(p4 + l5, p1 + l2, pg);
    lemma_contains_three(p1, l2, st, l3);
    lemma_contains_extend(p2 + l3, l2 + st + l3, am);
    lemma_contains_extend(p3, l2 + st + l3, l4);
    lemma_contains_extend(p3 + l4, l2 + st + l3, rs);
    lemma_contains_extend(p4, l2 + st + l3, l5);
    lemma_contains_extend(p4 + l5, l2 + st + l3, pg);
    lemma_contains_three(p2, l3, am, l4);
    lemma_contains_extend(p3 + l4, l3 + am + l4, rs);
    lemma_contains_extend(p4, l3 + am + l4, l5);
    lemma_contains_extend(p4 + l5, l3 + am + l4, pg);
    lemma_contains_three(p3, l4, rs, l5);
    lemma_contains_extend(p4 + l5, l4 + rs + l5, pg);
    lemma_suffix_two(p4, l5, pg);
    lemma_contains_middle("未找到退款单 "@, refund_id, "，请核对退款单号或转人工核实。"@);
}

/// The answer of a complaint query reports each field of a found complaint
/// after its own label, up to the next label: the number (the queried one
/// when the record has none), the status, the channel, the progress and the
/// owner, each shown as `未知` when the record lacks it. An unknown
/// complaint's notice names the queried number.
pub proof fn lemma_complaint_answer_fields(complaint_id: Seq<char>, d: Seq<(String, String)>)
    ensures
        has_prefix(complaint_text(complaint_id, Some(d)), "投诉查询成功：\n投诉单号："@ + lookup_or(d, "complaint_id"@, complaint_id) + "\n状态："@),
        contains_part(complaint_text(complaint_id, Some(d)), "\n状态："@ + lookup_or(d, "status"@, unknown()) + "\n渠道："@),
        contains_part(complaint_text(complaint_id, Some(d)), "\n渠道："@ + lookup_or(d, "channel"@, unknown()) + "\n进度："@),
        contains_part(complaint_text(complaint_id, Some(d)), "\n进度："@ + lookup_or(d, "progress"@, unknown()) + "\n责任人："@),
        has_suffix(complaint_text(complaint_id, Some(d)), "\n责任人："@ + lookup_or(d, "owner"@, unknown())),
        contains_part(complaint_text(complaint_id, None), complaint_id),
{
    let id = lookup_or(d, "complaint_id"@, complaint_id);
    let st = lookup_or(d, "status"@, unknown());
    let ch = lookup_or(d, "channel"@, unknown());
    let pg = lookup_or(d, "progress"@, unknown());
    let ow = lookup_or(d, "owner"@, unknown());
    let (l0, l1, l2, l3, l4, l5) = ("投诉查询成功："@, "\n投诉单号："@, "\n状态："@, "\n渠道："@, "\n进度："@, "\n责任人："@);
    let p1 = l0 + l1 + id;
    let p2 = p1 + l2 + st;
    let p3 = p2 + l3 + ch;
    let p4 = p3 + l4 + pg;
    let t = p4 + l5 + ow;
    assert(t == complaint_text(complaint_id, Some(d)));
    assert(l0 + l1 =~= "投诉查询成功：\n投诉单号："@) by {
        reveal_strlit("投诉查询成功：");
        reveal_strlit("\n投诉单号：");
        reveal_strlit("投诉查询成功：\n投诉单号：");
    }
    assert((p1 + l2).take((p1 + l2).len() as int) =~= p1 + l2);
    lemma_prefix_extend(p1 + l2, p1 + l2, st);
    lemma_prefix_extend(p2, p1 + l2, l3);
    lemma_prefix_extend(p2 + l3, p1 + l2, ch);
    lemma_prefix_extend(p3, p1 + l2, l4);
    lemma_prefix_extend(p3 + l4, p1 + l2, pg);
    lemma_prefix_extend(p4, p1 + l2, l5);
    lemma_prefix_extend(p4 + l5, p1 + l2, ow);
    lemma_contains_three(p1, l2, st, l3);
    lemma_contains_extend(p2 + l3, l2 + st + l3, ch);
    lemma_contains_extend(p3, l2 + st + l3, l4);
    lemma_contains_extend(p3 + l4, l2 + st + l3, pg);
    lemma_contains_extend(p4, l2 + st + l3, l5);
    lemma_contains_extend(p4 + l5, l2 + st + l3, ow);
    lemma_contains_three(p2, l3, ch, l4);
    lemma_contains_extend(p3 + l4, l3 + ch + l4, pg);
    lemma_contains_extend(p4, l3 + ch + l4, l5);
    lemma_contains_extend(p4 + l5, l3 + ch + l4, ow);
    lemma_contains_three(p3, l4, pg, l5);
    lemma_contains_extend(p4 + l5, l4 + pg + l5, ow);
    lemma_suffix_two(p4, l5, ow);
    lemma_contains_middle("未找到投诉单 "@, complaint_id, "，请核对投诉单号或转人工核实。"@);
}

/// The fields of an optional record.
pub open spec fn record_entries(data: Option<JsonFields>) -> Option<Seq<(String, String)>> {
    match data {
        Some(f) => Some(f.entries@),
        None => None,
    }
}

/// Appends `label` and `value` to `out`.
fn push_labeled(out: &mut String, label: &str, value: &str)
    ensures
        final(out)@ == old(out)@ + label@ + value@,
{
    out.append(label);
    out.append(value);
}

/// Formats the answer of an order query; `data` is `None` when the backend
/// knows no such order.
pub fn format_order(order_id: &str, data: &Option<JsonFields>) -> (r: String)
    ensures
        r@ == order_text(order_id@, record_entries(*data)),
{
    match data {
        None => concat3("未找到订单 ", order_id, "，请核对订单号或转人工核实。"),
        Some(d) => {
            let mut out = String::from_str("订单查询成功：");
            push_labeled(&mut out, "\n订单号：", d.get_or("order_id", order_id).as_str());
            push_labeled(&mut out, "\n状态：", d.get_or("status", "未知").as_str());
            push_labeled(&mut out, "\n金额：", d.get_or("amount", "未知").as_str());
            push_labeled(&mut out, "\n下单时间：", d.get_or("created_at", "未知").as_str());
            out
        },
    }
}

/// Formats the answer of a refund query.
pub fn format_refund(refund_id: &str, data: &Option<JsonFields>) -> (r: String)
    ensures
        r@ == refund_text(refund_id@, record_entries(*data)),
{
    match data {
        None => concat3("未找到退款单 ", refund_id, "，请核对退款单号或转人工核实。"),
        Some(d) => {
            let mut out = String::from_str("退款查询成功：");
            push_labeled(&mut out, "\n退款单号：", d.get_or("refund_id", refund_id).as_str());
            push_labeled(&mut out, "\n状态：", d.get_or("status", "未知").as_str());
            push_labeled(&mut out, "\n金额：", d.get_or("amount", "未知").as_str());
            push_labeled(&mut out, "\n原因：", d.get_or("reason", "未知").as_str());
            push_labeled(&mut out, "\n进度：", d.get_or("progress", "未知").as_str());
            out
        },
    }
}

/// Formats the answer of a complaint query.
pub fn format_complaint(complaint_id: &str, data: &Option<JsonFields>) -> (r: String)
    ensures
        r@ == complaint_text(complaint_id@, record_entries(*data)),
{
    match data {
        None => concat3("未找到投诉单 ", complaint_id, "，请核对投诉单号或转人工核实。"),
        Some(d) => {
            let mut out = String::from_str("投诉查询成功：");
            push_labeled(&mut out, "\n投诉单号：", d.get_or("complaint_id", complaint_id).as_str());
            push_labeled(&mut out, "\n状态：", d.get_or("status", "未知").as_str());
            push_labeled(&mut out, "\n渠道：", d.get_or("channel", "未知").as_str());
            push_labeled(&mut out, "\n进度：", d.get_or("progress", "未知").as_str());
            push_labeled(&mut out, "\n责任人：", d.get_or("owner", "未知").as_str());
            out
        },
    }
}

/// The order number an order query needs.
pub fn order_query_id(args: &JsonFields) -> (r: Result<String, AgentError>)
    ensures
        match lookup(args.entries@, "order_id"@) {
            Some(v) => r matches Ok(s) && s@ == v,
            None => r matches Err(AgentError::Tool(m)) && m@ == missing_arg_text(
                "order_query"@,
                "order_id"@,
            ),
        },
{
    required_arg(args, "order_query", "order_id")
}

/// The refund number a refund query needs.
pub fn refund_query_id(args: &JsonFields) -> (r: Result<String, AgentError>)
    ensures
        match lookup(args.entries@, "refund_id"@) {
            Some(v) => r matches Ok(s) && s@ == v,
            None => r matches Err(AgentError::Tool(m)) && m@ == missing_arg_text(
                "refund_query"@,
                "refund_id"@,
            ),
        },
{
    required_arg(args, "refund_query", "refund_id")
}

/// The complaint number a complaint query needs.
pub fn complaint_query_id(args: &JsonFields) -> (r: Result<String, AgentError>)
    ensures
        match lookup(args.entries@, "complaint_id"@) {
            Some(v) => r matches Ok(s) && s@ == v,
            None => r matches Err(AgentError::Tool(m)) && m@ == missing_arg_text(
                "complaint_query"@,
                "complaint_id"@,
            ),
        },
{
    required_arg(args, "complaint_query", "complaint_id")
}

/// Descriptions of the three query tools, with the given parameter schema.
pub fn order_query_definition(parameters: serde_json::Value) -> (d: ToolDefinition)
    ensures
        d.name@ == "order_query"@,
        d.description@ == "查询订单信息（状态、金额、下单时间等）"@,
        d.parameters == parameters,
{
    definition_of("order_query", "查询订单信息（状态、金额、下单时间等）", parameters)
}

/// Description of the refund query tool.
pub fn refund_query_definition(parameters: serde_json::Value) -> (d: ToolDefinition)
    ensures
        d.name@ == "refund_query"@,
        d.description@ == "查询退款信息（状态、金额、原因、进度）"@,
        d.parameters == parameters,
{
    definition_of("refund_query", "查询退款信息（状态、金额、原因、进度）", parameters)
}

/// Description of the complaint query tool.
pub fn complaint_query_definition(parameters: serde_json::Value) -> (d: ToolDefinition)
    ensures
        d.name@ == "complaint_query"@,
        d.description@ == "查询投诉处理进度（状态、渠道、进度、责任人）"@,
        d.parameters == parameters,
{
    definition_of("complaint_query", "查询投诉处理进度（状态、渠道、进度、责任人）", parameters)
}

/// Demonstration business backend with fixed sample records.
#[derive(Debug, Clone, Copy)]
pub struct MockBusinessBackend;

/// A record from key/value pairs.
fn record(pairs: &[(&str, &str)]) -> (f: JsonFields)
    ensures
        entries_view(f.entries@) == pairs@.map_values(|p: (&str, &str)| (p.0@, p.1@)),
{
    let mut f = JsonFields::new();
    let mut i: usize = 0;
    while i < pairs.len()
        invariant
            i <= pairs@.len(),
            f.entries@.len() == i,
            forall|k: int|
                0 <= k < i ==> (#[trigger] f.entries@[k]).0@ == pairs@[k].0@ && f.entries@[k].1@
                    == pairs@[k].1@,
        decreases pairs.len() - i,
    {
        let (k, v) = pairs[i];
        f.insert(String::from_str(k), String::from_str(v));
        i = i + 1;
    }
    assert(entries_view(f.entries@) =~= pairs@.map_values(|p: (&str, &str)| (p.0@, p.1@)));
    f
}

impl MockBusinessBackend {
    /// The backend.
    pub fn new() -> (b: Self) {
        MockBusinessBackend
    }

    /// The order `ORD-1001` is known (shipped, ¥299.00); no other order is.
    pub fn query_order(&self, order_id: &str) -> (r: Option<JsonFields>)
        ensures
            r is Some <==> order_id@ == "ORD-1001"@,
            r matches Some(f) ==> entries_view(f.entries@) == seq![
                ("order_id"@, "ORD-1001"@),
                ("status"@, "已发货"@),
                ("amount"@, "¥299.00"@),
                ("created_at"@, "2026-07-01 10:24"@),
            ],
    {
        if same_text(order_id, "ORD-1001") {
            let f = record(
                &[
                    ("order_id", "ORD-1001"),
                    ("status", "已发货"),
                    ("amount", "¥299.00"),
                    ("created_at", "2026-07-01 10:24"),
                ],
            );
            Some(f)
        } else {
            None
        }
    }

    /// The refund `RF-2001` is known (in progress, ¥99.00); no other refund is.
    pub fn query_refund(&self, refund_id: &str) -> (r: Option<JsonFields>)
        ensures
            r is Some <==> refund_id@ == "RF-2001"@,
            r matches Some(f) ==> entries_view(f.entries@) == seq![
                ("refund_id"@, "RF-2001"@),
                ("status"@, "处理中"@),
                ("amount"@, "¥99.00"@),
                ("reason"@, "商品质量问题"@),
                ("progress"@, "已审核，等待退款到账（1-3 个工作日）"@),
            ],
    {
        if same_text(refund_id, "RF-2001") {
            let f = record(
                &[
                    ("refund_id", "RF-2001"),
                    ("status", "处理中"),
                    ("amount", "¥99.00"),
                    ("reason", "商品质量问题"),
                    ("progress", "已审核，等待退款到账（1-3 个工作日）"),
                ],
            );
            Some(f)
        } else {
            None
        }
    }

    /// The complaint `CMP-3001` is known (handled by 客服组-李工); no other
    /// complaint is.
    pub fn query_complaint(&self, complaint_id: &str) -> (r: Option<JsonFields>)
        ensures
            r is Some <==> complaint_id@ == "CMP-3001"@,
            r matches Some(f) ==> entries_view(f.entries@) == seq![
                ("complaint_id"@, "CMP-3001"@),
                ("status"@, "处理中"@),
                ("channel"@, "在线客服"@),
                ("progress"@, "已受理，专员跟进中"@),
                ("owner"@, "客服组-李工"@),
            ],
    {
        if same_text(complaint_id, "CMP-3001") {
            let f = record(
                &[
                    ("complaint_id", "CMP-3001"),
                    ("status", "处理中"),
                    ("channel", "在线客服"),
                    ("progress", "已受理，专员跟进中"),
                    ("owner", "客服组-李工"),
                ],
            );
            Some(f)
        } else {
            None
        }
    }
}

// ---------------------------------------------------------------------------
// Knowledge search
// ---------------------------------------------------------------------------

/// The answer when the knowledge base has nothing: the agent must not make
/// an answer up.
pub open spec fn no_knowledge_text() -> Seq<char> {
    "知识库中没有找到相关内容，建议转人工或向客户说明无法回答。"@
}

/// One knowledge hit as the search tool shows it: its score, already
/// rendered with three decimals, and its text if it has one.
#[derive(Debug)]
pub struct KnowledgeHitText {
    pub score_text: String,
    pub content: Option<String>,
}

/// The line that shows hit number `i`.
pub open spec fn hit_line(i: nat, h: KnowledgeHitText) -> Seq<char> {
    "["@ + decimal(i) + "] (score="@ + h.score_text@ + ") "@ + match h.content {
        Some(c) => c@,
        None => "<无正文>"@,
    } + "\n"@
}

/// The lines of the hits from number `from` on.
pub open spec fn hit_lines(hits: Seq<KnowledgeHitText>, n: nat) -> Seq<char>
    decreases n,
{
    if n == 0 {
        Seq::empty()
    } else {
        hit_lines(hits, (n - 1) as nat) + hit_line((n - 1) as nat, hits[n - 1])
    }
}

/// The answer of a knowledge search: an explicit notice when nothing was
/// found, otherwise one numbered line per hit.
pub open spec fn knowledge_answer(hits: Seq<KnowledgeHitText>) -> Seq<char> {
    if hits.len() == 0 {
        no_knowledge_text()
    } else {
        hit_lines(hits, hits.len())
    }
}

/// The knowledge-search tool's rules (the store and the embedding client are
/// attached where the calls are made).
#[derive(Debug, Clone, Copy)]
pub struct KnowledgeSearchRules {
    /// Hits requested by the tool.
    pub top_k: usize,
}

/// Description of the knowledge-search tool.
pub fn knowledge_search_definition(parameters: serde_json::Value) -> (d: ToolDefinition)
    ensures
        d.name@ == "knowledge_search"@,
        d.description@ == "搜索知识库获取答案"@,
        d.parameters == parameters,
{
    definition_of("knowledge_search", "搜索知识库获取答案", parameters)
}

/// The query a knowledge search needs.
pub fn knowledge_query(args: &JsonFields) -> (r: Result<String, AgentError>)
    ensures
        match lookup(args.entries@, "query"@) {
            Some(v) => r matches Ok(s) && s@ == v,
            None => r matches Err(AgentError::Tool(m)) && m@ == missing_arg_text(
                "knowledge_search"@,
                "query"@,
            ),
        },
{
    required_arg(args, "knowledge_search", "query")
}

/// Formats the answer of a knowledge search.
pub fn format_knowledge_hits(hits: &Vec<KnowledgeHitText>) -> (r: String)
    ensures
        r@ == knowledge_answer(hits@),
{
    if hits.len() == 0 {
        return String::from_str("知识库中没有找到相关内容，建议转人工或向客户说明无法回答。");
    }
    let mut out = String::new();
    let mut i: usize = 0;
    while i < hits.len()
        invariant
            i <= hits@.len(),
            out@ == hit_lines(hits@, i as nat),
        decreases hits.len() - i,
    {
        let h = &hits[i];
        let n = decimal_string(i as u64);
        out.append("[");
        out.append(n.as_str());
        out.append("] (score=");
        out.append(h.score_text.as_str());
        out.append(") ");
        match &h.content {
            Some(c) => out.append(c.as_str()),
            None => out.append("<无正文>"),
        }
        out.append("\n");
        i = i + 1;
    }
    out
}

/// The number of hits a knowledge lookup asks for: the caller's limit, or
/// the tool's own when the caller gives 0.
pub fn effective_limit(limit: usize, top_k: usize) -> (r: usize)
    ensures
        r == if limit > 0 {
            limit
        } else {
            top_k
        },
{
    if limit > 0 {
        limit
    } else {
        top_k
    }
}

/// The text of a stored hit: its `content` field, or nothing.
pub fn hit_content(metadata: &JsonFields) -> (r: String)
    ensures
        r@ == lookup_or(metadata.entries@, "content"@, ""@),
{
    metadata.get_or("content", "")
}

/// Deterministic demonstration embedding client: it only fixes the dimension.
#[derive(Debug, Clone, Copy)]
pub struct MockEmbeddingClient {
    dim: usize,
}

impl MockEmbeddingClient {
    /// The dimension of the vectors.
    pub closed spec fn spec_dim(&self) -> nat {
        self.dim as nat
    }

    /// A client producing vectors of dimension `dim`.
    pub fn new(dim: usize) -> (c: Self)
        ensures
            c.spec_dim() == dim,
    {
        MockEmbeddingClient { dim }
    }

    /// The dimension of the vectors.
    pub fn dim(&self) -> (d: usize)
        ensures
            d == self.spec_dim(),
    {
        self.dim
    }
}

} // verus!
