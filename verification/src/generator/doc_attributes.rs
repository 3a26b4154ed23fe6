//! The documentation attached to generated methods, as the attribute
//! tokens `#[doc = r"..."]` that a `///` line becomes, one per line.

use vstd::prelude::*;

verus! {

/// The documentation of `to_node`.
pub const TO_NODE_DOC: &'static str = "# [doc = r\" 将结构体转换为 mf_core::node::Node 实例\"] # [doc = r\"\"] # [doc = r\" 此方法由 #[derive(Node)] 宏自动生成，根据结构体的字段\"] # [doc = r\" 和宏属性配置创建相应的 Node 实例。\"] # [doc = r\"\"] # [doc = r\" # 返回值\"] # [doc = r\" \"] # [doc = r\" 返回配置好的 `mf_core::node::Node` 实例\"] # [doc = r\"\"] # [doc = r\" # 生成说明\"] # [doc = r\"\"] # [doc = r\" 这个方法是由 ModuForge-RS 宏系统自动生成的，\"] # [doc = r\" 它遵循以下设计原则：\"] # [doc = r\" - **单一职责**: 只负责 Node 实例的创建\"] # [doc = r\" - **里氏替换**: 生成的 Node 可以替换手动创建的实例\"]";

/// The documentation of the Node `from`.
pub const NODE_FROM_DOC: &'static str = "# [doc = r\" 从 mf_model::node::Node 创建结构体实例\"] # [doc = r\"\"] # [doc = r\" 此方法由 #[derive(Node)] 宏自动生成，根据 Node 的属性\"] # [doc = r\" 创建相应的结构体实例。\"] # [doc = r\"\"] # [doc = r\" # 参数\"] # [doc = r\"\"] # [doc = r\" * `node` - 要转换的 Node 实例\"] # [doc = r\"\"] # [doc = r\" # 返回值\"] # [doc = r\" \"] # [doc = r\" 成功时返回结构体实例，失败时返回错误信息\"] # [doc = r\"\"] # [doc = r\" # 错误\"] # [doc = r\"\"] # [doc = r\" 当节点类型不匹配时，返回包含错误信息的 Result\"] # [doc = r\"\"] # [doc = r\" # 生成说明\"] # [doc = r\"\"] # [doc = r\" 这个方法是由 ModuForge-RS 宏系统自动生成的，\"] # [doc = r\" 它遵循以下设计原则：\"] # [doc = r\" - **单一职责**: 只负责从 Node 创建结构体实例\"] # [doc = r\" - **错误安全**: 使用 Result 类型处理类型不匹配错误\"]";

/// The documentation of `mark_definition`.
pub const MARK_DEFINITION_DOC: &'static str = "# [doc = r\" 获取标记定义\"] # [doc = r\"\"] # [doc = r\" 此方法由 #[derive(Mark)] 宏自动生成，根据结构体的字段\"] # [doc = r\" 和宏属性配置创建标记定义（而非具体实例）。\"] # [doc = r\"\"] # [doc = r\" # 返回值\"] # [doc = r\"\"] # [doc = r\" 返回配置好的 `mf_core::mark::Mark` 定义\"] # [doc = r\"\"] # [doc = r\" # 生成说明\"] # [doc = r\"\"] # [doc = r\" 这个方法是由 ModuForge-RS 宏系统自动生成的，\"] # [doc = r\" 它遵循以下设计原则：\"] # [doc = r\" - **单一职责**: 只负责 Mark 定义的创建\"] # [doc = r\" - **语义清晰**: 方法名明确表示返回的是定义而非实例\"] # [doc = r\" - **里氏替换**: 生成的 Mark 定义可以替换手动创建的定义\"] # [doc = r\" - **属性精确性**: 只包含 #[attr] 标记的字段，符合标记定义语义\"]";

/// The documentation of `to_mark`.
pub const TO_MARK_DOC: &'static str = "# [doc = r\" 将结构体转换为 mf_core::mark::Mark 实例\"] # [doc = r\"\"] # [doc = r\" 此方法由 #[derive(Mark)] 宏自动生成，根据结构体的字段\"] # [doc = r\" 和宏属性配置创建相应的 Mark 实例。\"] # [doc = r\"\"] # [doc = r\" # 返回值\"] # [doc = r\"\"] # [doc = r\" 返回配置好的 `mf_core::mark::Mark` 实例\"] # [doc = r\"\"] # [doc = r\" # 生成说明\"] # [doc = r\"\"] # [doc = r\" 这个方法是由 ModuForge-RS 宏系统自动生成的，\"] # [doc = r\" 它遵循以下设计原则：\"] # [doc = r\" - **单一职责**: 只负责 Mark 实例的创建\"] # [doc = r\" - **里氏替换**: 生成的 Mark 可以替换手动创建的实例\"]";

/// The documentation of the Mark `from`.
pub const MARK_FROM_DOC: &'static str = "# [doc = r\" 从 mf_model::mark::Mark 创建结构体实例\"] # [doc = r\"\"] # [doc = r\" 此方法由 #[derive(Mark)] 宏自动生成，根据 Mark 的属性\"] # [doc = r\" 创建相应的结构体实例。\"] # [doc = r\"\"] # [doc = r\" # 参数\"] # [doc = r\"\"] # [doc = r\" * `mark` - 要转换的 Mark 实例\"] # [doc = r\"\"] # [doc = r\" # 返回值\"] # [doc = r\"\"] # [doc = r\" 成功时返回结构体实例，失败时返回错误信息\"] # [doc = r\"\"] # [doc = r\" # 错误\"] # [doc = r\"\"] # [doc = r\" 当标记类型不匹配时，返回包含错误信息的 Result\"] # [doc = r\"\"] # [doc = r\" # 生成说明\"] # [doc = r\"\"] # [doc = r\" 这个方法是由 ModuForge-RS 宏系统自动生成的，\"] # [doc = r\" 它遵循以下设计原则：\"] # [doc = r\" - **单一职责**: 只负责从 Mark 创建结构体实例\"] # [doc = r\" - **错误安全**: 使用 Result 类型处理类型不匹配错误\"] # [doc = r\" - **字段分离**: #[attr] 字段从 attrs 提取，非 #[attr] 字段使用默认值\"] # [doc = r\" - **类型安全**: 支持泛型类型和自定义类型的安全转换\"]";

/// The documentation of `default_instance`.
pub const DEFAULT_INSTANCE_DOC: &'static str = "# [doc = r\" 创建默认实例\"] # [doc = r\"\"] # [doc = r\" 当从 Mark 转换失败时使用此方法创建默认实例。\"] # [doc = r\" 此方法由 #[derive(Mark)] 宏自动生成。\"] # [doc = r\"\"] # [doc = r\" # 返回值\"] # [doc = r\"\"] # [doc = r\" 返回使用默认值初始化的结构体实例\"]";

/// The documentation of the conversion of the struct into a Mark.
pub const INTO_MARK_DOC: &'static str = "# [doc = r\" 将结构体实例转换为 mf_core::mark::Mark\"] # [doc = r\"\"] # [doc = r\" 实现标准的 From trait，支持使用 `.into()` 方法进行转换。\"] # [doc = r\" 此实现由 #[derive(Mark)] 宏自动生成。\"] # [doc = r\"\"] # [doc = r\" # 参数\"] # [doc = r\"\"] # [doc = r\" * `_value` - 结构体实例（当前实现中使用定义而非实例值）\"] # [doc = r\"\"] # [doc = r\" # 返回值\"] # [doc = r\"\"] # [doc = r\" 返回配置好的 `mf_core::mark::Mark` 定义\"] # [doc = r\"\"] # [doc = r\" # 使用示例\"] # [doc = r\"\"] # [doc = r\" ```rust\"] # [doc = r\" let my_struct = MyStruct { /* fields */ };\"] # [doc = r\" let mark: mf_core::mark::Mark = my_struct.into();\"] # [doc = r\" // 或者\"] # [doc = r\" let mark = mf_core::mark::Mark::from(my_struct);\"] # [doc = r\" ```\"]";

/// The documentation of the conversion of a Mark into the struct.
pub const FROM_MARK_DOC: &'static str = "# [doc = r\" 从 mf_model::mark::Mark 转换为结构体实例\"] # [doc = r\"\"] # [doc = r\" 实现标准的 From trait，支持使用 `.into()` 方法进行反向转换。\"] # [doc = r\" 此实现由 #[derive(Mark)] 宏自动生成。\"] # [doc = r\"\"] # [doc = r\" # 参数\"] # [doc = r\"\"] # [doc = r\" * `mark` - mf_model::mark::Mark 实例\"] # [doc = r\"\"] # [doc = r\" # 返回值\"] # [doc = r\"\"] # [doc = r\" 返回结构体实例，如果转换失败则使用默认值\"] # [doc = r\"\"] # [doc = r\" # 使用示例\"] # [doc = r\"\"] # [doc = r\" ```rust\"] # [doc = r\" let mark: mf_model::mark::Mark = /* ... */;\"] # [doc = r\" let my_struct: MyStruct = mark.into();\"] # [doc = r\" // 或者\"] # [doc = r\" let my_struct = MyStruct::from(mark);\"] # [doc = r\" ```\"]";

} // verus!
