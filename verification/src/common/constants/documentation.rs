//! Documentation text for generated methods.

use vstd::prelude::*;

verus! {

/// Doc of the Node conversion method.
pub const NODE_CONVERTER_DOC: &'static str = "将结构体转换为 mf_core::node::Node 实例\n\n此方法由 #[derive(Node)] 宏自动生成，\n根据结构体的字段和宏属性配置创建相应的 Node 实例。";

/// Doc of the Mark conversion method.
pub const MARK_CONVERTER_DOC: &'static str = "将结构体转换为 mf_core::mark::Mark 实例\n\n此方法由 #[derive(Mark)] 宏自动生成，\n根据结构体的字段和宏属性配置创建相应的 Mark 实例。";

/// Return value section.
pub const RETURN_VALUE_DOC: &'static str = "# 返回值\n\n返回配置好的实例";

/// Example section.
pub const EXAMPLE_DOC: &'static str = "# 示例\n\n```rust\n// 创建实例\nlet instance = MyStruct { /* 字段初始化 */ };\n// 转换为相应类型\nlet converted = instance.to_node(); // 或 to_mark()\n```";

} // verus!
