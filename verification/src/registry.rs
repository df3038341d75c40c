//! The tool registry: tool implementations by name, and the page-level tool
//! configurations.

use crate::records::{entries_map, ids_of, RecordTable};
use crate::text::same_text;
use vstd::prelude::*;

verus! {

/// Configuration of a tool's intermediate reply.
#[derive(Debug, Clone)]
pub struct IntermediateReplyConfig {
    /// Reply text.
    pub text: String,
    /// Audio cue file.
    pub audio_cue: Option<String>,
}

/// Configuration of a tool as the management pages edit it.
#[derive(Debug, Clone)]
pub struct ToolConfig {
    /// Unique tool name.
    pub name: String,
    /// Name shown on the pages.
    pub display_name: String,
    /// Description for the model.
    pub description: String,
    /// Category (info_query / action / transfer / utility).
    pub category: String,
    /// Whether the tool is enabled.
    pub enabled: bool,
    /// Whether the tool performs sensitive operations.
    pub sensitive: bool,
    /// Parameter schema (JSON Schema).
    pub parameters: serde_json::Value,
    /// Intermediate reply.
    pub intermediate_reply: Option<IntermediateReplyConfig>,
    /// Reply used when the tool fails.
    pub error_reply: Option<String>,
}

/// A configuration file: the list of tool configurations.
#[derive(Debug, Clone)]
pub struct ToolConfigFile {
    pub tools: Vec<ToolConfig>,
}

/// The enabled configurations of a list, in order.
pub open spec fn enabled_of(s: Seq<ToolConfig>) -> Seq<ToolConfig>
    decreases s.len(),
{
    if s.len() == 0 {
        Seq::empty()
    } else if s.last().enabled {
        enabled_of(s.drop_last()).push(s.last())
    } else {
        enabled_of(s.drop_last())
    }
}

/// Position of the first configuration with the given name.
pub open spec fn first_config(s: Seq<ToolConfig>, name: Seq<char>) -> Option<int> {
    if exists|i: int| 0 <= i < s.len() && s[i].name@ == name {
        Some(choose|i: int| 0 <= i < s.len() && s[i].name@ == name && forall|k: int| 0 <= k < i ==> s[k].name@ != name)
    } else {
        None
    }
}

/// The registered tools by name.
pub open spec fn tools_map<T>(s: Seq<(String, T)>) -> Map<Seq<char>, T> {
    entries_map(s)
}

/// After a tool is registered under a name, looking the name up gives that
/// tool, and every other name gives what it gave before.
pub proof fn lemma_register_then_get<T>(
    before: Seq<(String, T)>,
    after: Seq<(String, T)>,
    name: Seq<char>,
    tool: T,
)
    requires
        tools_map(after) == tools_map(before).insert(name, tool),
    ensures
        tools_map(after).contains_key(name),
        tools_map(after)[name] == tool,
        forall|other: Seq<char>|
            other != name ==> (#[trigger] tools_map(after).contains_key(other) <==> tools_map(
                before,
            ).contains_key(other)) && (tools_map(before).contains_key(other) ==> tools_map(
                after,
            )[other] == tools_map(before)[other]),
{
}

/// Tools by name, and tool configurations.
pub struct ToolRegistry<T> {
    tools: RecordTable<T>,
    configs: Vec<ToolConfig>,
}

impl<T> ToolRegistry<T> {
    /// Registered tools, in registration order; their names are distinct.
    pub closed spec fn spec_tools(&self) -> Seq<(String, T)> {
        self.tools.spec_entries()
    }

    /// Tool configurations, in order.
    pub closed spec fn spec_configs(&self) -> Seq<ToolConfig> {
        self.configs@
    }

    /// The tool names are distinct.
    pub closed spec fn wf(&self) -> bool {
        self.tools.wf()
    }

    /// An empty registry.
    pub fn new() -> (r: Self)
        ensures
            r.wf(),
            r.spec_tools().len() == 0,
            r.spec_configs().len() == 0,
    {
        ToolRegistry { tools: RecordTable::new(), configs: Vec::new() }
    }

    /// A registry holding the given configurations and no tools.
    pub fn from_configs(configs: Vec<ToolConfig>) -> (r: Self)
        ensures
            r.wf(),
            r.spec_tools().len() == 0,
            r.spec_configs() == configs@,
    {
        ToolRegistry { tools: RecordTable::new(), configs }
    }

    /// Registers a tool under its name; a tool registered earlier under the
    /// same name is replaced in place.
    pub fn register(&mut self, name: String, tool: T)
        requires
            old(self).wf(),
        ensures
            final(self).wf(),
            tools_map(final(self).spec_tools()) == tools_map(old(self).spec_tools()).insert(name@, tool),
            final(self).spec_configs() == old(self).spec_configs(),
    {
        self.tools.upsert(name, tool);
    }

    /// The tool registered under `name`.
    pub fn get_tool(&self, name: &str) -> (r: Option<&T>)
        requires
            self.wf(),
        ensures
            r is Some <==> tools_map(self.spec_tools()).contains_key(name@),
            r matches Some(t) ==> *t == tools_map(self.spec_tools())[name@],
    {
        self.tools.get(name)
    }

    /// The registered tools with their names, in registration order.
    pub fn tools(&self) -> (r: &Vec<(String, T)>)
        ensures
            r@ == self.spec_tools(),
    {
        self.tools.entries()
    }

    /// The first configuration with the given name.
    pub fn get_config(&self, name: &str) -> (r: Option<&ToolConfig>)
        ensures
            match first_config(self.spec_configs(), name@) {
                Some(i) => r matches Some(c) && *c == self.spec_configs()[i],
                None => r is None,
            },
    {
        let mut i: usize = 0;
        while i < self.configs.len()
            invariant
                i <= self.configs@.len(),
                forall|k: int| 0 <= k < i ==> self.configs@[k].name@ != name@,
            decreases self.configs.len() - i,
        {
            if same_text(self.configs[i].name.as_str(), name) {
                proof {
                    let c = choose|j: int|
                        0 <= j < self.configs@.len() && self.configs@[j].name@ == name@ && forall|k: int|
                            0 <= k < j ==> self.configs@[k].name@ != name@;
                    assert(c == i as int) by {
                        if c < i { } else if c > i { }
                    }
                }
                return Some(&self.configs[i]);
            }
            i = i + 1;
        }
        None
    }

    /// All configurations, in order.
    pub fn list_configs(&self) -> (r: &[ToolConfig])
        ensures
            r@ == self.spec_configs(),
    {
        self.configs.as_slice()
    }

    /// The enabled configurations, in order.
    pub fn enabled_configs(&self) -> (r: Vec<&ToolConfig>)
        ensures
            r@.map_values(|c: &ToolConfig| *c) == enabled_of(self.spec_configs()),
    {
        let mut out: Vec<&ToolConfig> = Vec::new();
        let mut i: usize = 0;
        while i < self.configs.len()
            invariant
                i <= self.configs@.len(),
                out@.map_values(|c: &ToolConfig| *c) == enabled_of(self.configs@.take(i as int)),
            decreases self.configs.len() - i,
        {
            proof {
                assert(self.configs@.take(i + 1).drop_last() == self.configs@.take(i as int));
                assert(self.configs@.take(i + 1).last() == self.configs@[i as int]);
            }
            let c = &self.configs[i];
            if c.enabled {
                let ghost before = out@;
                out.push(c);
                assert(out@.map_values(|c: &ToolConfig| *c) =~= before.map_values(|c: &ToolConfig| *c).push(*c));
            }
            i = i + 1;
        }
        assert(self.configs@.take(self.configs@.len() as int) == self.configs@);
        out
    }

    /// Adds a configuration without an implementation.
    pub fn add_config(&mut self, config: ToolConfig)
        ensures
            final(self).spec_configs() == old(self).spec_configs().push(config),
            final(self).spec_tools() == old(self).spec_tools(),
            final(self).wf() == old(self).wf(),
    {
        self.configs.push(config);
    }

    /// Number of registered tools.
    pub fn len(&self) -> (r: usize)
        ensures
            r == self.spec_tools().len(),
    {
        self.tools.entries().len()
    }

    /// Whether no tool is registered.
    pub fn is_empty(&self) -> (r: bool)
        ensures
            r == (self.spec_tools().len() == 0),
    {
        self.tools.entries().len() == 0
    }
}

/// The example configuration text.
pub open spec fn example_config_text() -> Seq<char> {
    r#"{
  "tools": [
    {
      "name": "knowledge_search",
      "display_name": "知识库检索",
      "description": "搜索知识库获取答案",
      "category": "info_query",
      "enabled": true,
      "parameters": {
        "type": "object",
        "properties": {
          "query": {
            "type": "string",
            "description": "搜索关键词或问题描述"
          }
        },
        "required": ["query"]
      },
      "intermediate_reply": {
        "text": "正在查阅知识库...",
        "audio_cue": "sounds/keyboard_typing.mp3"
      },
      "error_reply": "抱歉，知识库查询暂时不可用"
    },
    {
      "name": "order_query",
      "display_name": "订单查询",
      "description": "查询订单信息（状态、金额、下单时间等）",
      "category": "info_query",
      "enabled": true,
      "parameters": {
        "type": "object",
        "properties": {
          "order_id": {
            "type": "string",
            "description": "订单号"
          }
        },
        "required": ["order_id"]
      },
      "intermediate_reply": {
        "text": "正在查询订单...",
        "audio_cue": "sounds/keyboard_typing.mp3"
      },
      "error_reply": "抱歉，订单查询暂时不可用"
    },
    {
      "name": "refund_query",
      "display_name": "退款查询",
      "description": "查询退款信息（状态、金额、原因、进度）",
      "category": "info_query",
      "enabled": true,
      "parameters": {
        "type": "object",
        "properties": {
          "refund_id": {
            "type": "string",
            "description": "退款单号"
          }
        },
        "required": ["refund_id"]
      },
      "intermediate_reply": {
        "text": "正在查询退款...",
        "audio_cue": "sounds/keyboard_typing.mp3"
      },
      "error_reply": "抱歉，退款查询暂时不可用"
    },
    {
      "name": "complaint_query",
      "display_name": "投诉查询",
      "description": "查询投诉处理进度（状态、渠道、进度、责任人）",
      "category": "info_query",
      "enabled": true,
      "parameters": {
        "type": "object",
        "properties": {
          "complaint_id": {
            "type": "string",
            "description": "投诉单号"
          }
        },
        "required": ["complaint_id"]
      },
      "intermediate_reply": {
        "text": "正在查询投诉进度...",
        "audio_cue": "sounds/keyboard_typing.mp3"
      },
      "error_reply": "抱歉，投诉查询暂时不可用"
    },
    {
      "name": "transfer_to_human",
      "display_name": "转人工客服",
      "description": "转接人工客服",
      "category": "transfer",
      "enabled": true,
      "parameters": {
        "type": "object",
        "properties": {
          "reason": {
            "type": "string",
            "description": "转人工原因（内部记录）"
          },
          "reply": {
            "type": "string",
            "description": "回复给客户的话术（委婉专业）"
          }
        },
        "required": ["reason", "reply"]
      },
      "intermediate_reply": {
        "text": "正在为您转接，请稍候...",
        "audio_cue": "sounds/ringing.mp3"
      },
      "error_reply": "转接暂时不可用"
    }
  ]
}"#@
}

/// An example configuration, as JSON text: the five built-in tools.
pub fn example_tool_config() -> (r: &'static str)
    ensures
        r@ == example_config_text(),
{
    r#"{
  "tools": [
    {
      "name": "knowledge_search",
      "display_name": "知识库检索",
      "description": "搜索知识库获取答案",
      "category": "info_query",
      "enabled": true,
      "parameters": {
        "type": "object",
        "properties": {
          "query": {
            "type": "string",
            "description": "搜索关键词或问题描述"
          }
        },
        "required": ["query"]
      },
      "intermediate_reply": {
        "text": "正在查阅知识库...",
        "audio_cue": "sounds/keyboard_typing.mp3"
      },
      "error_reply": "抱歉，知识库查询暂时不可用"
    },
    {
      "name": "order_query",
      "display_name": "订单查询",
      "description": "查询订单信息（状态、金额、下单时间等）",
      "category": "info_query",
      "enabled": true,
      "parameters": {
        "type": "object",
        "properties": {
          "order_id": {
            "type": "string",
            "description": "订单号"
          }
        },
        "required": ["order_id"]
      },
      "intermediate_reply": {
        "text": "正在查询订单...",
        "audio_cue": "sounds/keyboard_typing.mp3"
      },
      "error_reply": "抱歉，订单查询暂时不可用"
    },
    {
      "name": "refund_query",
      "display_name": "退款查询",
      "description": "查询退款信息（状态、金额、原因、进度）",
      "category": "info_query",
      "enabled": true,
      "parameters": {
        "type": "object",
        "properties": {
          "refund_id": {
            "type": "string",
            "description": "退款单号"
          }
        },
        "required": ["refund_id"]
      },
      "intermediate_reply": {
        "text": "正在查询退款...",
        "audio_cue": "sounds/keyboard_typing.mp3"
      },
      "error_reply": "抱歉，退款查询暂时不可用"
    },
    {
      "name": "complaint_query",
      "display_name": "投诉查询",
      "description": "查询投诉处理进度（状态、渠道、进度、责任人）",
      "category": "info_query",
      "enabled": true,
      "parameters": {
        "type": "object",
        "properties": {
          "complaint_id": {
            "type": "string",
            "description": "投诉单号"
          }
        },
        "required": ["complaint_id"]
      },
      "intermediate_reply": {
        "text": "正在查询投诉进度...",
        "audio_cue": "sounds/keyboard_typing.mp3"
      },
      "error_reply": "抱歉，投诉查询暂时不可用"
    },
    {
      "name": "transfer_to_human",
      "display_name": "转人工客服",
      "description": "转接人工客服",
      "category": "transfer",
      "enabled": true,
      "parameters": {
        "type": "object",
        "properties": {
          "reason": {
            "type": "string",
            "description": "转人工原因（内部记录）"
          },
          "reply": {
            "type": "string",
            "description": "回复给客户的话术（委婉专业）"
          }
        },
        "required": ["reason", "reply"]
      },
      "intermediate_reply": {
        "text": "正在为您转接，请稍候...",
        "audio_cue": "sounds/ringing.mp3"
      },
      "error_reply": "转接暂时不可用"
    }
  ]
}"#
}

} // verus!
