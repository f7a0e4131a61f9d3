//! Kismet expressions and what they hold, with their views.

use vstd::prelude::*;
use crate::types::{NameIndex, PackageIndex, Vector};
use super::tokens::{EExprToken, ECastToken, EScriptInstrumentationType, EBlueprintTextLiteralType};

verus! {

/// Kismet field path
#[derive(Debug, PartialEq, Eq)]
pub struct FieldPath {
    /// Path
    pub path: Vec<NameIndex>,
    /// Path owner
    pub resolved_owner: PackageIndex,
}

/// What a field path holds.
pub struct FieldPathView {
    /// Path
    pub path: Seq<NameIndex>,
    /// Path owner
    pub resolved_owner: PackageIndex,
}

impl FieldPath {
    /// What the field path holds.
    pub open spec fn view(&self) -> FieldPathView {
        FieldPathView { path: self.path@, resolved_owner: self.resolved_owner }
    }

    /// Create a new `FieldPath` instance
    pub fn new(path: Vec<NameIndex>, resolved_owner: PackageIndex) -> (r: Self)
        ensures r.view() == (FieldPathView { path: path@, resolved_owner }),
    {
        FieldPath { path, resolved_owner }
    }
}

/// Represents a Kismet bytecode pointer to an FProperty or FField: a package index before the
/// object version that serializes it as a field path, a field path from it on.
#[derive(Debug, PartialEq, Eq)]
pub struct KismetPropertyPointer {
    /// Pointer serialized as PackageIndex
    pub old: Option<PackageIndex>,
    /// Pointer serialized as an FFieldPath
    pub new: Option<FieldPath>,
}

/// What a property pointer holds.
pub struct PointerView {
    /// Pointer serialized as PackageIndex
    pub old: Option<PackageIndex>,
    /// Pointer serialized as an FFieldPath
    pub new: Option<FieldPathView>,
}

impl KismetPropertyPointer {
    /// What the pointer holds.
    pub open spec fn view(&self) -> PointerView {
        PointerView {
            old: self.old,
            new: match self.new {
                Some(p) => Some(p.view()),
                None => None,
            },
        }
    }

    /// Create an old `KismetPropertyPointer`
    pub fn from_old(old: PackageIndex) -> (r: Self)
        ensures r.view() == (PointerView { old: Some(old), new: None }),
    {
        KismetPropertyPointer { old: Some(old), new: None }
    }

    /// Create a new `KismetPropertyPointer`
    pub fn from_new(new: FieldPath) -> (r: Self)
        ensures r.view() == (PointerView { old: None, new: Some(new.view()) }),
    {
        KismetPropertyPointer { old: None, new: Some(new) }
    }
}

/// Kismet script text
#[derive(Debug, PartialEq, Eq)]
pub struct FScriptText {
    /// Literal type
    pub text_literal_type: EBlueprintTextLiteralType,
    /// Localized source
    pub localized_source: Option<KismetExpression>,
    /// Localized key
    pub localized_key: Option<KismetExpression>,
    /// Localized namespace
    pub localized_namespace: Option<KismetExpression>,
    /// Invariant literal string
    pub invariant_literal_string: Option<KismetExpression>,
    /// Literal string
    pub literal_string: Option<KismetExpression>,
    /// String table asset this text is localized from
    pub string_table_asset: Option<PackageIndex>,
    /// String table id in the string table asset
    pub string_table_id: Option<KismetExpression>,
    /// String table key in the string table asset
    pub string_table_key: Option<KismetExpression>,
}

/// What a script text holds.
pub struct TextView {
    /// Literal type
    pub text_literal_type: EBlueprintTextLiteralType,
    /// Localized source
    pub localized_source: Option<KView>,
    /// Localized key
    pub localized_key: Option<KView>,
    /// Localized namespace
    pub localized_namespace: Option<KView>,
    /// Invariant literal string
    pub invariant_literal_string: Option<KView>,
    /// Literal string
    pub literal_string: Option<KView>,
    /// String table asset this text is localized from
    pub string_table_asset: Option<PackageIndex>,
    /// String table id in the string table asset
    pub string_table_id: Option<KView>,
    /// String table key in the string table asset
    pub string_table_key: Option<KView>,
}

/// The view of an optional expression.
pub open spec fn opt_view(e: Option<KismetExpression>) -> Option<KView>
    decreases e,
{
    match e {
        Some(x) => Some(x.view()),
        None => None,
    }
}

impl FScriptText {
    /// What the text holds.
    pub open spec fn view(&self) -> TextView
        decreases self,
    {
        TextView {
            text_literal_type: self.text_literal_type,
            localized_source: opt_view(self.localized_source),
            localized_key: opt_view(self.localized_key),
            localized_namespace: opt_view(self.localized_namespace),
            invariant_literal_string: opt_view(self.invariant_literal_string),
            literal_string: opt_view(self.literal_string),
            string_table_asset: self.string_table_asset,
            string_table_id: opt_view(self.string_table_id),
            string_table_key: opt_view(self.string_table_key),
        }
    }
}

/// Kismet switch case
#[derive(Debug, PartialEq, Eq)]
pub struct KismetSwitchCase {
    /// Case index value term
    pub case_index_value_term: KismetExpression,
    /// Next offset
    pub next_offset: u32,
    /// Case term
    pub case_term: KismetExpression,
}

/// What a switch case holds.
pub struct SwitchCaseView {
    /// Case index value term
    pub case_index_value_term: KView,
    /// Next offset
    pub next_offset: u32,
    /// Case term
    pub case_term: KView,
}

impl KismetSwitchCase {
    /// What the case holds.
    pub open spec fn view(&self) -> SwitchCaseView
        decreases self,
    {
        SwitchCaseView {
            case_index_value_term: self.case_index_value_term.view(),
            next_offset: self.next_offset,
            case_term: self.case_term.view(),
        }
    }

    /// Create a new `KismetSwitchCase` instance
    pub fn new(case_index_value_term: KismetExpression, next_offset: u32, case_term: KismetExpression) -> (r: Self)
        ensures
            r.view() == (SwitchCaseView {
                case_index_value_term: case_index_value_term.view(),
                next_offset,
                case_term: case_term.view(),
            }),
    {
        KismetSwitchCase { case_index_value_term, next_offset, case_term }
    }
}

/// Kismet expression
#[derive(Debug, PartialEq, Eq)]
pub enum KismetExpression {
    /// A local variable.
    ExLocalVariable {
        /// Variable
        variable: KismetPropertyPointer,
    },
    /// An object variable.
    ExInstanceVariable {
        /// Variable
        variable: KismetPropertyPointer,
    },
    /// Default variable for a class context.
    ExDefaultVariable {
        /// Variable
        variable: KismetPropertyPointer,
    },
    /// Return from function.
    ExReturn {
        /// Return expression
        return_expression: Box<KismetExpression>,
    },
    /// Goto a local address in code.
    ExJump {
        /// Code offset
        code_offset: u32,
    },
    /// Goto if not expression.
    ExJumpIfNot {
        /// Code offset
        code_offset: u32,
        /// Boolean expression
        boolean_expression: Box<KismetExpression>,
    },
    /// Assertion.
    ExAssert {
        /// Line number
        line_number: u16,
        /// Is debug
        debug_mode: bool,
        /// Expression to assert on
        assert_expression: Box<KismetExpression>,
    },
    /// No operation.
    ExNothing,
    /// Assign an arbitrary size value to a variable.
    ExLet {
        /// Value
        value: KismetPropertyPointer,
        /// Variable
        variable: Box<KismetExpression>,
        /// Expression
        expression: Box<KismetExpression>,
    },
    /// Class default object context.
    ExClassContext {
        /// Object expression
        object_expression: Box<KismetExpression>,
        /// Offset
        offset: u32,
        /// r-value pointer
        r_value_pointer: KismetPropertyPointer,
        /// Context expression
        context_expression: Box<KismetExpression>,
    },
    /// Metaclass cast.
    ExMetaCast {
        /// Class pointer
        class_ptr: PackageIndex,
        /// Target expression
        target_expression: Box<KismetExpression>,
    },
    /// Let boolean variable.
    ExLetBool {
        /// Variable expression
        variable_expression: Box<KismetExpression>,
        /// Assignment expression
        assignment_expression: Box<KismetExpression>,
    },
    /// end of default value for optional function parameter
    ExEndParmValue,
    /// End of function call parameters.
    ExEndFunctionParms,
    /// Self object.
    ExSelf,
    /// Skippable expression.
    ExSkip {
        /// Code offset
        code_offset: u32,
        /// Skip expression
        skip_expression: Box<KismetExpression>,
    },
    /// Call a function through an object context.
    ExContext {
        /// Object expression
        object_expression: Box<KismetExpression>,
        /// Offset
        offset: u32,
        /// r-value pointer
        r_value_pointer: KismetPropertyPointer,
        /// Context expression
        context_expression: Box<KismetExpression>,
    },
    /// Call a function through an object context (can fail silently if the context is NULL; only generated for functions that don't have output or return values).
    ExContextFailSilent {
        /// Object expression
        object_expression: Box<KismetExpression>,
        /// Offset
        offset: u32,
        /// r-value pointer
        r_value_pointer: KismetPropertyPointer,
        /// Context expression
        context_expression: Box<KismetExpression>,
    },
    /// A function call with parameters.
    ExVirtualFunction {
        /// Virtual function name
        virtual_function_name: NameIndex,
        /// Function parameters
        parameters: Vec<KismetExpression>,
    },
    /// A prebound function call with parameters.
    ExFinalFunction {
        /// Stack node
        stack_node: PackageIndex,
        /// Function parameters
        parameters: Vec<KismetExpression>,
    },
    /// Int constant.
    ExIntConst {
        /// Value
        value: i32,
    },
    /// Floating point constant.
    ExFloatConst {
        /// Value, as the bits of an `f32`
        value: u32,
    },
    /// String constant.
    ExStringConst {
        /// Value
        value: String,
    },
    /// An object constant.
    ExObjectConst {
        /// Value
        value: PackageIndex,
    },
    /// A name constant.
    ExNameConst {
        /// Value
        value: NameIndex,
    },
    /// A rotation constant.
    ExRotationConst {
        /// Pitch
        pitch: i32,
        /// Yaw
        yaw: i32,
        /// Roll
        roll: i32,
    },
    /// A vector constant.
    ExVectorConst {
        /// Value, as the bits of three `f32`s
        value: Vector<u32>,
    },
    /// A byte constant.
    ExByteConst {
        /// Value
        value: u8,
    },
    /// Zero.
    ExIntZero,
    /// One.
    ExIntOne,
    /// Bool True.
    ExTrue,
    /// Bool False.
    ExFalse,
    /// FText constant
    ExTextConst {
        /// Value
        value: Box<FScriptText>,
    },
    /// NoObject.
    ExNoObject,
    /// A transform constant
    ExTransformConst {
        /// Rotation, as the bits of four `f32`s
        rotation: (u32, u32, u32, u32),
        /// Translation, as the bits of three `f32`s
        translation: Vector<u32>,
        /// Scale, as the bits of three `f32`s
        scale: Vector<u32>,
    },
    /// Int constant that requires 1 byte.
    ExIntConstByte {
        /// Value
        value: u8,
    },
    /// A null interface (similar to ExNoObject, but for interfaces)
    ExNoInterface,
    /// Safe dynamic class casting.
    ExDynamicCast {
        /// Class pointer
        class_ptr: PackageIndex,
        /// Target expression
        target_expression: Box<KismetExpression>,
    },
    /// An arbitrary UStruct constant
    ExStructConst {
        /// Struct value
        struct_value: PackageIndex,
        /// Struct size
        struct_size: i32,
        /// Value
        value: Vec<KismetExpression>,
    },
    /// End of UStruct constant
    ExEndStructConst,
    /// Set the value of arbitrary array
    ExSetArray {
        /// Assigning property
        assigning_property: Option<Box<KismetExpression>>,
        /// Array inner prop
        array_inner_prop: Option<PackageIndex>,
        /// Elements
        elements: Vec<KismetExpression>,
    },
    /// End an array
    ExEndArray,
    /// FProperty constant.
    ExPropertyConst {
        /// Property
        property: KismetPropertyPointer,
    },
    /// Unicode string constant.
    ExUnicodeStringConst {
        /// Value
        value: String,
    },
    /// 64-bit integer constant.
    ExInt64Const {
        /// Value
        value: i64,
    },
    /// 64-bit unsigned integer constant.
    ExUInt64Const {
        /// Value
        value: u64,
    },
    /// A casting operator for primitives which reads the type as the subsequent byte
    ExPrimitiveCast {
        /// Conversion type
        conversion_type: ECastToken,
        /// Target
        target: Box<KismetExpression>,
    },
    /// Set the value of an arbitrary set
    ExSetSet {
        /// Set property
        set_property: Box<KismetExpression>,
        /// Elements
        elements: Vec<KismetExpression>,
    },
    /// End a set
    ExEndSet,
    /// Set the value of an arbitrary map
    ExSetMap {
        /// Map property
        map_property: Box<KismetExpression>,
        /// Elements
        elements: Vec<KismetExpression>,
    },
    /// End a map
    ExEndMap,
    /// Set a value of an arbitrary const
    ExSetConst {
        /// Inner property
        inner_property: KismetPropertyPointer,
        /// Elements
        elements: Vec<KismetExpression>,
    },
    /// End const
    ExEndSetConst,
    /// Create a constant map
    ExMapConst {
        /// Key property
        key_property: KismetPropertyPointer,
        /// Value property
        value_property: KismetPropertyPointer,
        /// Elements
        elements: Vec<KismetExpression>,
    },
    /// End a constant map
    ExEndMapConst,
    /// Context expression to address a property within a struct
    ExStructMemberContext {
        /// Struct member expression
        struct_member_expression: KismetPropertyPointer,
        /// Struct expression
        struct_expression: Box<KismetExpression>,
    },
    /// Assignment to a multi-cast delegate
    ExLetMulticastDelegate {
        /// Variable expression
        variable_expression: Box<KismetExpression>,
        /// Assignment expression
        assignment_expression: Box<KismetExpression>,
    },
    /// Assignment to a delegate
    ExLetDelegate {
        /// Variable expression
        variable_expression: Box<KismetExpression>,
        /// Assignment expression
        assignment_expression: Box<KismetExpression>,
    },
    /// Special instructions to quickly call a virtual function that we know is going to run only locally
    ExLocalVirtualFunction {
        /// Virtual function name
        virtual_function_name: NameIndex,
        /// Function parameters
        parameters: Vec<KismetExpression>,
    },
    /// Special instructions to quickly call a final function that we know is going to run only locally
    ExLocalFinalFunction {
        /// Stack node
        stack_node: PackageIndex,
        /// Function parameters
        parameters: Vec<KismetExpression>,
    },
    /// local out (pass by reference) function parameter
    ExLocalOutVariable {
        /// Variable
        variable: KismetPropertyPointer,
    },
    /// Deprecated operation
    ExDeprecatedOp4A,
    /// const reference to a delegate or normal function object
    ExInstanceDelegate {
        /// Function name
        function_name: NameIndex,
    },
    /// push an address on to the execution flow stack for future execution when a ExPopExecutionFlow is executed. Execution continues on normally and doesn't change to the pushed address.
    ExPushExecutionFlow {
        /// Pushing address
        pushing_address: u32,
    },
    /// continue execution at the last address previously pushed onto the execution flow stack.
    ExPopExecutionFlow,
    /// Goto a local address in code, specified by an integer value.
    ExComputedJump {
        /// Code offset expression
        code_offset_expression: Box<KismetExpression>,
    },
    /// continue execution at the last address previously pushed onto the execution flow stack, if the condition is not true.
    ExPopExecutionFlowIfNot {
        /// Boolean expression
        boolean_expression: Box<KismetExpression>,
    },
    /// Breakpoint. Only observed in the editor, otherwise it behaves like ExNothing.
    ExBreakpoint,
    /// Call a function through a native interface variable
    ExInterfaceContext {
        /// Interface value
        interface_value: Box<KismetExpression>,
    },
    /// Converting an object reference to native interface variable
    ExObjToInterfaceCast {
        /// Class pointer
        class_ptr: PackageIndex,
        /// Target
        target: Box<KismetExpression>,
    },
    /// Last byte in script code
    ExEndOfScript,
    /// Converting an interface variable reference to native interface variable
    ExCrossInterfaceCast {
        /// Class pointer
        class_ptr: PackageIndex,
        /// Target
        target: Box<KismetExpression>,
    },
    /// Converting an interface variable reference to an object
    ExInterfaceToObjCast {
        /// Class pointer
        class_ptr: PackageIndex,
        /// Target
        target: Box<KismetExpression>,
    },
    /// Trace point.  Only observed in the editor, otherwise it behaves like ExNothing.
    ExWireTracepoint,
    /// A CodeSizeSkipOffset constant
    ExSkipOffsetConst {
        /// Value
        value: u32,
    },
    /// Adds a delegate to a multicast delegate's targets
    ExAddMulticastDelegate {
        /// Delegate
        delegate: Box<KismetExpression>,
        /// Delegate to add
        delegate_to_add: Box<KismetExpression>,
    },
    /// Clears all delegates in a multicast target
    ExClearMulticastDelegate {
        /// Delegate to clear
        delegate_to_clear: Box<KismetExpression>,
    },
    /// Trace point.  Only observed in the editor, otherwise it behaves like ExNothing.
    ExTracepoint,
    /// assign to any object ref pointer
    ExLetObj {
        /// Variable expression
        variable_expression: Box<KismetExpression>,
        /// Assignment expression
        assignment_expression: Box<KismetExpression>,
    },
    /// assign to a weak object pointer
    ExLetWeakObjPtr {
        /// Variable expression
        variable_expression: Box<KismetExpression>,
        /// Assignment expression
        assignment_expression: Box<KismetExpression>,
    },
    /// bind object and name to delegate
    ExBindDelegate {
        /// Function name
        function_name: NameIndex,
        /// Delegate to bind
        delegate: Box<KismetExpression>,
        /// Object term
        object_term: Box<KismetExpression>,
    },
    /// Remove a delegate from a multicast delegate's targets
    ExRemoveMulticastDelegate {
        /// Delegate
        delegate: Box<KismetExpression>,
        /// Delegate to remove
        delegate_to_add: Box<KismetExpression>,
    },
    /// Call multicast delegate
    ExCallMulticastDelegate {
        /// Stack node
        stack_node: PackageIndex,
        /// Delegate to call
        delegate: Box<KismetExpression>,
        /// Parameters
        parameters: Vec<KismetExpression>,
    },
    /// Let value on persistent frame
    ExLetValueOnPersistentFrame {
        /// Destination property
        destination_property: KismetPropertyPointer,
        /// Assignment expression
        assignment_expression: Box<KismetExpression>,
    },
    /// Declare an array const
    ExArrayConst {
        /// Inner property
        inner_property: KismetPropertyPointer,
        /// Array elements
        elements: Vec<KismetExpression>,
    },
    /// End an array const
    ExEndArrayConst,
    /// Declare a soft object const
    ExSoftObjectConst {
        /// Value
        value: Box<KismetExpression>,
    },
    /// static pure function from on local call space
    ExCallMath {
        /// Stack node
        stack_node: PackageIndex,
        /// Parameters
        parameters: Vec<KismetExpression>,
    },
    /// Switch value
    ExSwitchValue {
        /// End goto offset
        end_goto_offset: u32,
        /// Index term
        index_term: Box<KismetExpression>,
        /// Default term
        default_term: Box<KismetExpression>,
        /// Cases
        cases: Vec<KismetSwitchCase>,
    },
    /// Instrumentation event
    ExInstrumentationEvent {
        /// Event type
        event_type: EScriptInstrumentationType,
        /// Event name
        event_name: Option<NameIndex>,
    },
    /// Get array by ref
    ExArrayGetByRef {
        /// Array variable
        array_variable: Box<KismetExpression>,
        /// Array element index
        array_index: Box<KismetExpression>,
    },
    /// Sparse data variable
    ExClassSparseDataVariable {
        /// Variable
        variable: KismetPropertyPointer,
    },
    /// Decclare a field path const
    ExFieldPathConst {
        /// Value
        value: Box<KismetExpression>,
    },
}

/// What a kismet expression holds.
pub enum KView {
    /// A local variable.
    ExLocalVariable {
        /// Variable
        variable: PointerView,
    },
    /// An object variable.
    ExInstanceVariable {
        /// Variable
        variable: PointerView,
    },
    /// Default variable for a class context.
    ExDefaultVariable {
        /// Variable
        variable: PointerView,
    },
    /// Return from function.
    ExReturn {
        /// Return expression
        return_expression: Box<KView>,
    },
    /// Goto a local address in code.
    ExJump {
        /// Code offset
        code_offset: u32,
    },
    /// Goto if not expression.
    ExJumpIfNot {
        /// Code offset
        code_offset: u32,
        /// Boolean expression
        boolean_expression: Box<KView>,
    },
    /// Assertion.
    ExAssert {
        /// Line number
        line_number: u16,
        /// Is debug
        debug_mode: bool,
        /// Expression to assert on
        assert_expression: Box<KView>,
    },
    /// No operation.
    ExNothing,
    /// Assign an arbitrary size value to a variable.
    ExLet {
        /// Value
        value: PointerView,
        /// Variable
        variable: Box<KView>,
        /// Expression
        expression: Box<KView>,
    },
    /// Class default object context.
    ExClassContext {
        /// Object expression
        object_expression: Box<KView>,
        /// Offset
        offset: u32,
        /// r-value pointer
        r_value_pointer: PointerView,
        /// Context expression
        context_expression: Box<KView>,
    },
    /// Metaclass cast.
    ExMetaCast {
        /// Class pointer
        class_ptr: PackageIndex,
        /// Target expression
        target_expression: Box<KView>,
    },
    /// Let boolean variable.
    ExLetBool {
        /// Variable expression
        variable_expression: Box<KView>,
        /// Assignment expression
        assignment_expression: Box<KView>,
    },
    /// end of default value for optional function parameter
    ExEndParmValue,
    /// End of function call parameters.
    ExEndFunctionParms,
    /// Self object.
    ExSelf,
    /// Skippable expression.
    ExSkip {
        /// Code offset
        code_offset: u32,
        /// Skip expression
        skip_expression: Box<KView>,
    },
    /// Call a function through an object context.
    ExContext {
        /// Object expression
        object_expression: Box<KView>,
        /// Offset
        offset: u32,
        /// r-value pointer
        r_value_pointer: PointerView,
        /// Context expression
        context_expression: Box<KView>,
    },
    /// Call a function through an object context (can fail silently if the context is NULL; only generated for functions that don't have output or return values).
    ExContextFailSilent {
        /// Object expression
        object_expression: Box<KView>,
        /// Offset
        offset: u32,
        /// r-value pointer
        r_value_pointer: PointerView,
        /// Context expression
        context_expression: Box<KView>,
    },
    /// A function call with parameters.
    ExVirtualFunction {
        /// Virtual function name
        virtual_function_name: NameIndex,
        /// Function parameters
        parameters: Seq<KView>,
    },
    /// A prebound function call with parameters.
    ExFinalFunction {
        /// Stack node
        stack_node: PackageIndex,
        /// Function parameters
        parameters: Seq<KView>,
    },
    /// Int constant.
    ExIntConst {
        /// Value
        value: i32,
    },
    /// Floating point constant.
    ExFloatConst {
        /// Value, as the bits of an `f32`
        value: u32,
    },
    /// String constant.
    ExStringConst {
        /// Value
        value: Seq<char>,
    },
    /// An object constant.
    ExObjectConst {
        /// Value
        value: PackageIndex,
    },
    /// A name constant.
    ExNameConst {
        /// Value
        value: NameIndex,
    },
    /// A rotation constant.
    ExRotationConst {
        /// Pitch
        pitch: i32,
        /// Yaw
        yaw: i32,
        /// Roll
        roll: i32,
    },
    /// A vector constant.
    ExVectorConst {
        /// Value, as the bits of three `f32`s
        value: Vector<u32>,
    },
    /// A byte constant.
    ExByteConst {
        /// Value
        value: u8,
    },
    /// Zero.
    ExIntZero,
    /// One.
    ExIntOne,
    /// Bool True.
    ExTrue,
    /// Bool False.
    ExFalse,
    /// FText constant
    ExTextConst {
        /// Value
        value: Box<TextView>,
    },
    /// NoObject.
    ExNoObject,
    /// A transform constant
    ExTransformConst {
        /// Rotation, as the bits of four `f32`s
        rotation: (u32, u32, u32, u32),
        /// Translation, as the bits of three `f32`s
        translation: Vector<u32>,
        /// Scale, as the bits of three `f32`s
        scale: Vector<u32>,
    },
    /// Int constant that requires 1 byte.
    ExIntConstByte {
        /// Value
        value: u8,
    },
    /// A null interface (similar to ExNoObject, but for interfaces)
    ExNoInterface,
    /// Safe dynamic class casting.
    ExDynamicCast {
        /// Class pointer
        class_ptr: PackageIndex,
        /// Target expression
        target_expression: Box<KView>,
    },
    /// An arbitrary UStruct constant
    ExStructConst {
        /// Struct value
        struct_value: PackageIndex,
        /// Struct size
        struct_size: i32,
        /// Value
        value: Seq<KView>,
    },
    /// End of UStruct constant
    ExEndStructConst,
    /// Set the value of arbitrary array
    ExSetArray {
        /// Assigning property
        assigning_property: Option<Box<KView>>,
        /// Array inner prop
        array_inner_prop: Option<PackageIndex>,
        /// Elements
        elements: Seq<KView>,
    },
    /// End an array
    ExEndArray,
    /// FProperty constant.
    ExPropertyConst {
        /// Property
        property: PointerView,
    },
    /// Unicode string constant.
    ExUnicodeStringConst {
        /// Value
        value: Seq<char>,
    },
    /// 64-bit integer constant.
    ExInt64Const {
        /// Value
        value: i64,
    },
    /// 64-bit unsigned integer constant.
    ExUInt64Const {
        /// Value
        value: u64,
    },
    /// A casting operator for primitives which reads the type as the subsequent byte
    ExPrimitiveCast {
        /// Conversion type
        conversion_type: ECastToken,
        /// Target
        target: Box<KView>,
    },
    /// Set the value of an arbitrary set
    ExSetSet {
        /// Set property
        set_property: Box<KView>,
        /// Elements
        elements: Seq<KView>,
    },
    /// End a set
    ExEndSet,
    /// Set the value of an arbitrary map
    ExSetMap {
        /// Map property
        map_property: Box<KView>,
        /// Elements
        elements: Seq<KView>,
    },
    /// End a map
    ExEndMap,
    /// Set a value of an arbitrary const
    ExSetConst {
        /// Inner property
        inner_property: PointerView,
        /// Elements
        elements: Seq<KView>,
    },
    /// End const
    ExEndSetConst,
    /// Create a constant map
    ExMapConst {
        /// Key property
        key_property: PointerView,
        /// Value property
        value_property: PointerView,
        /// Elements
        elements: Seq<KView>,
    },
    /// End a constant map
    ExEndMapConst,
    /// Context expression to address a property within a struct
    ExStructMemberContext {
        /// Struct member expression
        struct_member_expression: PointerView,
        /// Struct expression
        struct_expression: Box<KView>,
    },
    /// Assignment to a multi-cast delegate
    ExLetMulticastDelegate {
        /// Variable expression
        variable_expression: Box<KView>,
        /// Assignment expression
        assignment_expression: Box<KView>,
    },
    /// Assignment to a delegate
    ExLetDelegate {
        /// Variable expression
        variable_expression: Box<KView>,
        /// Assignment expression
        assignment_expression: Box<KView>,
    },
    /// Special instructions to quickly call a virtual function that we know is going to run only locally
    ExLocalVirtualFunction {
        /// Virtual function name
        virtual_function_name: NameIndex,
        /// Function parameters
        parameters: Seq<KView>,
    },
    /// Special instructions to quickly call a final function that we know is going to run only locally
    ExLocalFinalFunction {
        /// Stack node
        stack_node: PackageIndex,
        /// Function parameters
        parameters: Seq<KView>,
    },
    /// local out (pass by reference) function parameter
    ExLocalOutVariable {
        /// Variable
        variable: PointerView,
    },
    /// Deprecated operation
    ExDeprecatedOp4A,
    /// const reference to a delegate or normal function object
    ExInstanceDelegate {
        /// Function name
        function_name: NameIndex,
    },
    /// push an address on to the execution flow stack for future execution when a ExPopExecutionFlow is executed. Execution continues on normally and doesn't change to the pushed address.
    ExPushExecutionFlow {
        /// Pushing address
        pushing_address: u32,
    },
    /// continue execution at the last address previously pushed onto the execution flow stack.
    ExPopExecutionFlow,
    /// Goto a local address in code, specified by an integer value.
    ExComputedJump {
        /// Code offset expression
        code_offset_expression: Box<KView>,
    },
    /// continue execution at the last address previously pushed onto the execution flow stack, if the condition is not true.
    ExPopExecutionFlowIfNot {
        /// Boolean expression
        boolean_expression: Box<KView>,
    },
    /// Breakpoint. Only observed in the editor, otherwise it behaves like ExNothing.
    ExBreakpoint,
    /// Call a function through a native interface variable
    ExInterfaceContext {
        /// Interface value
        interface_value: Box<KView>,
    },
    /// Converting an object reference to native interface variable
    ExObjToInterfaceCast {
        /// Class pointer
        class_ptr: PackageIndex,
        /// Target
        target: Box<KView>,
    },
    /// Last byte in script code
    ExEndOfScript,
    /// Converting an interface variable reference to native interface variable
    ExCrossInterfaceCast {
        /// Class pointer
        class_ptr: PackageIndex,
        /// Target
        target: Box<KView>,
    },
    /// Converting an interface variable reference to an object
    ExInterfaceToObjCast {
        /// Class pointer
        class_ptr: PackageIndex,
        /// Target
        target: Box<KView>,
    },
    /// Trace point.  Only observed in the editor, otherwise it behaves like ExNothing.
    ExWireTracepoint,
    /// A CodeSizeSkipOffset constant
    ExSkipOffsetConst {
        /// Value
        value: u32,
    },
    /// Adds a delegate to a multicast delegate's targets
    ExAddMulticastDelegate {
        /// Delegate
        delegate: Box<KView>,
        /// Delegate to add
        delegate_to_add: Box<KView>,
    },
    /// Clears all delegates in a multicast target
    ExClearMulticastDelegate {
        /// Delegate to clear
        delegate_to_clear: Box<KView>,
    },
    /// Trace point.  Only observed in the editor, otherwise it behaves like ExNothing.
    ExTracepoint,
    /// assign to any object ref pointer
    ExLetObj {
        /// Variable expression
        variable_expression: Box<KView>,
        /// Assignment expression
        assignment_expression: Box<KView>,
    },
    /// assign to a weak object pointer
    ExLetWeakObjPtr {
        /// Variable expression
        variable_expression: Box<KView>,
        /// Assignment expression
        assignment_expression: Box<KView>,
    },
    /// bind object and name to delegate
    ExBindDelegate {
        /// Function name
        function_name: NameIndex,
        /// Delegate to bind
        delegate: Box<KView>,
        /// Object term
        object_term: Box<KView>,
    },
    /// Remove a delegate from a multicast delegate's targets
    ExRemoveMulticastDelegate {
        /// Delegate
        delegate: Box<KView>,
        /// Delegate to remove
        delegate_to_add: Box<KView>,
    },
    /// Call multicast delegate
    ExCallMulticastDelegate {
        /// Stack node
        stack_node: PackageIndex,
        /// Delegate to call
        delegate: Box<KView>,
        /// Parameters
        parameters: Seq<KView>,
    },
    /// Let value on persistent frame
    ExLetValueOnPersistentFrame {
        /// Destination property
        destination_property: PointerView,
        /// Assignment expression
        assignment_expression: Box<KView>,
    },
    /// Declare an array const
    ExArrayConst {
        /// Inner property
        inner_property: PointerView,
        /// Array elements
        elements: Seq<KView>,
    },
    /// End an array const
    ExEndArrayConst,
    /// Declare a soft object const
    ExSoftObjectConst {
        /// Value
        value: Box<KView>,
    },
    /// static pure function from on local call space
    ExCallMath {
        /// Stack node
        stack_node: PackageIndex,
        /// Parameters
        parameters: Seq<KView>,
    },
    /// Switch value
    ExSwitchValue {
        /// End goto offset
        end_goto_offset: u32,
        /// Index term
        index_term: Box<KView>,
        /// Default term
        default_term: Box<KView>,
        /// Cases
        cases: Seq<SwitchCaseView>,
    },
    /// Instrumentation event
    ExInstrumentationEvent {
        /// Event type
        event_type: EScriptInstrumentationType,
        /// Event name
        event_name: Option<NameIndex>,
    },
    /// Get array by ref
    ExArrayGetByRef {
        /// Array variable
        array_variable: Box<KView>,
        /// Array element index
        array_index: Box<KView>,
    },
    /// Sparse data variable
    ExClassSparseDataVariable {
        /// Variable
        variable: PointerView,
    },
    /// Decclare a field path const
    ExFieldPathConst {
        /// Value
        value: Box<KView>,
    },
}

/// The views of a sequence of expressions.
pub open spec fn views(s: Seq<KismetExpression>) -> Seq<KView>
    decreases s,
{
    if s.len() == 0 {
        Seq::empty()
    } else {
        views(s.subrange(0, s.len() - 1)).push(s[s.len() - 1].view())
    }
}

/// The views of a sequence of switch cases.
pub open spec fn case_views(s: Seq<KismetSwitchCase>) -> Seq<SwitchCaseView>
    decreases s,
{
    if s.len() == 0 {
        Seq::empty()
    } else {
        case_views(s.subrange(0, s.len() - 1)).push(s[s.len() - 1].view())
    }
}

impl KismetExpression {
    /// What the expression holds.
    pub open spec fn view(&self) -> KView
        decreases self,
    {
        match self {
            KismetExpression::ExLocalVariable { variable } => KView::ExLocalVariable {
                variable: variable.view(),
            },
            KismetExpression::ExInstanceVariable { variable } => KView::ExInstanceVariable {
                variable: variable.view(),
            },
            KismetExpression::ExDefaultVariable { variable } => KView::ExDefaultVariable {
                variable: variable.view(),
            },
            KismetExpression::ExReturn { return_expression } => KView::ExReturn {
                return_expression: Box::new((**return_expression).view()),
            },
            KismetExpression::ExJump { code_offset } => KView::ExJump {
                code_offset: *code_offset,
            },
            KismetExpression::ExJumpIfNot { code_offset, boolean_expression } => KView::ExJumpIfNot {
                code_offset: *code_offset,
                boolean_expression: Box::new((**boolean_expression).view()),
            },
            KismetExpression::ExAssert { line_number, debug_mode, assert_expression } => KView::ExAssert {
                line_number: *line_number,
                debug_mode: *debug_mode,
                assert_expression: Box::new((**assert_expression).view()),
            },
            KismetExpression::ExNothing => KView::ExNothing,
            KismetExpression::ExLet { value, variable, expression } => KView::ExLet {
                value: value.view(),
                variable: Box::new((**variable).view()),
                expression: Box::new((**expression).view()),
            },
            KismetExpression::ExClassContext { object_expression, offset, r_value_pointer, context_expression } => KView::ExClassContext {
                object_expression: Box::new((**object_expression).view()),
                offset: *offset,
                r_value_pointer: r_value_pointer.view(),
                context_expression: Box::new((**context_expression).view()),
            },
            KismetExpression::ExMetaCast { class_ptr, target_expression } => KView::ExMetaCast {
                class_ptr: *class_ptr,
                target_expression: Box::new((**target_expression).view()),
            },
            KismetExpression::ExLetBool { variable_expression, assignment_expression } => KView::ExLetBool {
                variable_expression: Box::new((**variable_expression).view()),
                assignment_expression: Box::new((**assignment_expression).view()),
            },
            KismetExpression::ExEndParmValue => KView::ExEndParmValue,
            KismetExpression::ExEndFunctionParms => KView::ExEndFunctionParms,
            KismetExpression::ExSelf => KView::ExSelf,
            KismetExpression::ExSkip { code_offset, skip_expression } => KView::ExSkip {
                code_offset: *code_offset,
                skip_expression: Box::new((**skip_expression).view()),
            },
            KismetExpression::ExContext { object_expression, offset, r_value_pointer, context_expression } => KView::ExContext {
                object_expression: Box::new((**object_expression).view()),
                offset: *offset,
                r_value_pointer: r_value_pointer.view(),
                context_expression: Box::new((**context_expression).view()),
            },
            KismetExpression::ExContextFailSilent { object_expression, offset, r_value_pointer, context_expression } => KView::ExContextFailSilent {
                object_expression: Box::new((**object_expression).view()),
                offset: *offset,
                r_value_pointer: r_value_pointer.view(),
                context_expression: Box::new((**context_expression).view()),
            },
            KismetExpression::ExVirtualFunction { virtual_function_name, parameters } => KView::ExVirtualFunction {
                virtual_function_name: *virtual_function_name,
                parameters: views(parameters@),
            },
            KismetExpression::ExFinalFunction { stack_node, parameters } => KView::ExFinalFunction {
                stack_node: *stack_node,
                parameters: views(parameters@),
            },
            KismetExpression::ExIntConst { value } => KView::ExIntConst {
                value: *value,
            },
            KismetExpression::ExFloatConst { value } => KView::ExFloatConst {
                value: *value,
            },
            KismetExpression::ExStringConst { value } => KView::ExStringConst {
                value: value@,
            },
            KismetExpression::ExObjectConst { value } => KView::ExObjectConst {
                value: *value,
            },
            KismetExpression::ExNameConst { value } => KView::ExNameConst {
                value: *value,
            },
            KismetExpression::ExRotationConst { pitch, yaw, roll } => KView::ExRotationConst {
                pitch: *pitch,
                yaw: *yaw,
                roll: *roll,
            },
            KismetExpression::ExVectorConst { value } => KView::ExVectorConst {
                value: *value,
            },
            KismetExpression::ExByteConst { value } => KView::ExByteConst {
                value: *value,
            },
            KismetExpression::ExIntZero => KView::ExIntZero,
            KismetExpression::ExIntOne => KView::ExIntOne,
            KismetExpression::ExTrue => KView::ExTrue,
            KismetExpression::ExFalse => KView::ExFalse,
            KismetExpression::ExTextConst { value } => KView::ExTextConst {
                value: Box::new((**value).view()),
            },
            KismetExpression::ExNoObject => KView::ExNoObject,
            KismetExpression::ExTransformConst { rotation, translation, scale } => KView::ExTransformConst {
                rotation: *rotation,
                translation: *translation,
                scale: *scale,
            },
            KismetExpression::ExIntConstByte { value } => KView::ExIntConstByte {
                value: *value,
            },
            KismetExpression::ExNoInterface => KView::ExNoInterface,
            KismetExpression::ExDynamicCast { class_ptr, target_expression } => KView::ExDynamicCast {
                class_ptr: *class_ptr,
                target_expression: Box::new((**target_expression).view()),
            },
            KismetExpression::ExStructConst { struct_value, struct_size, value } => KView::ExStructConst {
                struct_value: *struct_value,
                struct_size: *struct_size,
                value: views(value@),
            },
            KismetExpression::ExEndStructConst => KView::ExEndStructConst,
            KismetExpression::ExSetArray { assigning_property, array_inner_prop, elements } => KView::ExSetArray {
                assigning_property: match assigning_property { Some(a) => Some(Box::new((**a).view())), None => None },
                array_inner_prop: *array_inner_prop,
                elements: views(elements@),
            },
            KismetExpression::ExEndArray => KView::ExEndArray,
            KismetExpression::ExPropertyConst { property } => KView::ExPropertyConst {
                property: property.view(),
            },
            KismetExpression::ExUnicodeStringConst { value } => KView::ExUnicodeStringConst {
                value: value@,
            },
            KismetExpression::ExInt64Const { value } => KView::ExInt64Const {
                value: *value,
            },
            KismetExpression::ExUInt64Const { value } => KView::ExUInt64Const {
                value: *value,
            },
            KismetExpression::ExPrimitiveCast { conversion_type, target } => KView::ExPrimitiveCast {
                conversion_type: *conversion_type,
                target: Box::new((**target).view()),
            },
            KismetExpression::ExSetSet { set_property, elements } => KView::ExSetSet {
                set_property: Box::new((**set_property).view()),
                elements: views(elements@),
            },
            KismetExpression::ExEndSet => KView::ExEndSet,
            KismetExpression::ExSetMap { map_property, elements } => KView::ExSetMap {
                map_property: Box::new((**map_property).view()),
                elements: views(elements@),
            },
            KismetExpression::ExEndMap => KView::ExEndMap,
            KismetExpression::ExSetConst { inner_property, elements } => KView::ExSetConst {
                inner_property: inner_property.view(),
                elements: views(elements@),
            },
            KismetExpression::ExEndSetConst => KView::ExEndSetConst,
            KismetExpression::ExMapConst { key_property, value_property, elements } => KView::ExMapConst {
                key_property: key_property.view(),
                value_property: value_property.view(),
                elements: views(elements@),
            },
            KismetExpression::ExEndMapConst => KView::ExEndMapConst,
            KismetExpression::ExStructMemberContext { struct_member_expression, struct_expression } => KView::ExStructMemberContext {
                struct_member_expression: struct_member_expression.view(),
                struct_expression: Box::new((**struct_expression).view()),
            },
            KismetExpression::ExLetMulticastDelegate { variable_expression, assignment_expression } => KView::ExLetMulticastDelegate {
                variable_expression: Box::new((**variable_expression).view()),
                assignment_expression: Box::new((**assignment_expression).view()),
            },
            KismetExpression::ExLetDelegate { variable_expression, assignment_expression } => KView::ExLetDelegate {
                variable_expression: Box::new((**variable_expression).view()),
                assignment_expression: Box::new((**assignment_expression).view()),
            },
            KismetExpression::ExLocalVirtualFunction { virtual_function_name, parameters } => KView::ExLocalVirtualFunction {
                virtual_function_name: *virtual_function_name,
                parameters: views(parameters@),
            },
            KismetExpression::ExLocalFinalFunction { stack_node, parameters } => KView::ExLocalFinalFunction {
                stack_node: *stack_node,
                parameters: views(parameters@),
            },
            KismetExpression::ExLocalOutVariable { variable } => KView::ExLocalOutVariable {
                variable: variable.view(),
            },
            KismetExpression::ExDeprecatedOp4A => KView::ExDeprecatedOp4A,
            KismetExpression::ExInstanceDelegate { function_name } => KView::ExInstanceDelegate {
                function_name: *function_name,
            },
            KismetExpression::ExPushExecutionFlow { pushing_address } => KView::ExPushExecutionFlow {
                pushing_address: *pushing_address,
            },
            KismetExpression::ExPopExecutionFlow => KView::ExPopExecutionFlow,
            KismetExpression::ExComputedJump { code_offset_expression } => KView::ExComputedJump {
                code_offset_expression: Box::new((**code_offset_expression).view()),
            },
            KismetExpression::ExPopExecutionFlowIfNot { boolean_expression } => KView::ExPopExecutionFlowIfNot {
                boolean_expression: Box::new((**boolean_expression).view()),
            },
            KismetExpression::ExBreakpoint => KView::ExBreakpoint,
            KismetExpression::ExInterfaceContext { interface_value } => KView::ExInterfaceContext {
                interface_value: Box::new((**interface_value).view()),
            },
            KismetExpression::ExObjToInterfaceCast { class_ptr, target } => KView::ExObjToInterfaceCast {
                class_ptr: *class_ptr,
                target: Box::new((**target).view()),
            },
            KismetExpression::ExEndOfScript => KView::ExEndOfScript,
            KismetExpression::ExCrossInterfaceCast { class_ptr, target } => KView::ExCrossInterfaceCast {
                class_ptr: *class_ptr,
                target: Box::new((**target).view()),
            },
            KismetExpression::ExInterfaceToObjCast { class_ptr, target } => KView::ExInterfaceToObjCast {
                class_ptr: *class_ptr,
                target: Box::new((**target).view()),
            },
            KismetExpression::ExWireTracepoint => KView::ExWireTracepoint,
            KismetExpression::ExSkipOffsetConst { value } => KView::ExSkipOffsetConst {
                value: *value,
            },
            KismetExpression::ExAddMulticastDelegate { delegate, delegate_to_add } => KView::ExAddMulticastDelegate {
                delegate: Box::new((**delegate).view()),
                delegate_to_add: Box::new((**delegate_to_add).view()),
            },
            KismetExpression::ExClearMulticastDelegate { delegate_to_clear } => KView::ExClearMulticastDelegate {
                delegate_to_clear: Box::new((**delegate_to_clear).view()),
            },
            KismetExpression::ExTracepoint => KView::ExTracepoint,
            KismetExpression::ExLetObj { variable_expression, assignment_expression } => KView::ExLetObj {
                variable_expression: Box::new((**variable_expression).view()),
                assignment_expression: Box::new((**assignment_expression).view()),
            },
            KismetExpression::ExLetWeakObjPtr { variable_expression, assignment_expression } => KView::ExLetWeakObjPtr {
                variable_expression: Box::new((**variable_expression).view()),
                assignment_expression: Box::new((**assignment_expression).view()),
            },
            KismetExpression::ExBindDelegate { function_name, delegate, object_term } => KView::ExBindDelegate {
                function_name: *function_name,
                delegate: Box::new((**delegate).view()),
                object_term: Box::new((**object_term).view()),
            },
            KismetExpression::ExRemoveMulticastDelegate { delegate, delegate_to_add } => KView::ExRemoveMulticastDelegate {
                delegate: Box::new((**delegate).view()),
                delegate_to_add: Box::new((**delegate_to_add).view()),
            },
            KismetExpression::ExCallMulticastDelegate { stack_node, delegate, parameters } => KView::ExCallMulticastDelegate {
                stack_node: *stack_node,
                delegate: Box::new((**delegate).view()),
                parameters: views(parameters@),
            },
            KismetExpression::ExLetValueOnPersistentFrame { destination_property, assignment_expression } => KView::ExLetValueOnPersistentFrame {
                destination_property: destination_property.view(),
                assignment_expression: Box::new((**assignment_expression).view()),
            },
            KismetExpression::ExArrayConst { inner_property, elements } => KView::ExArrayConst {
                inner_property: inner_property.view(),
                elements: views(elements@),
            },
            KismetExpression::ExEndArrayConst => KView::ExEndArrayConst,
            KismetExpression::ExSoftObjectConst { value } => KView::ExSoftObjectConst {
                value: Box::new((**value).view()),
            },
            KismetExpression::ExCallMath { stack_node, parameters } => KView::ExCallMath {
                stack_node: *stack_node,
                parameters: views(parameters@),
            },
            KismetExpression::ExSwitchValue { end_goto_offset, index_term, default_term, cases } => KView::ExSwitchValue {
                end_goto_offset: *end_goto_offset,
                index_term: Box::new((**index_term).view()),
                default_term: Box::new((**default_term).view()),
                cases: case_views(cases@),
            },
            KismetExpression::ExInstrumentationEvent { event_type, event_name } => KView::ExInstrumentationEvent { event_type: *event_type, event_name: *event_name },
            KismetExpression::ExArrayGetByRef { array_variable, array_index } => KView::ExArrayGetByRef {
                array_variable: Box::new((**array_variable).view()),
                array_index: Box::new((**array_index).view()),
            },
            KismetExpression::ExClassSparseDataVariable { variable } => KView::ExClassSparseDataVariable {
                variable: variable.view(),
            },
            KismetExpression::ExFieldPathConst { value } => KView::ExFieldPathConst {
                value: Box::new((**value).view()),
            },
        }
    }

}

impl KView {
    /// The token of the expression.
    pub open spec fn token(self) -> EExprToken {
        match self {
            KView::ExLocalVariable { .. } => EExprToken::ExLocalVariable,
            KView::ExInstanceVariable { .. } => EExprToken::ExInstanceVariable,
            KView::ExDefaultVariable { .. } => EExprToken::ExDefaultVariable,
            KView::ExReturn { .. } => EExprToken::ExReturn,
            KView::ExJump { .. } => EExprToken::ExJump,
            KView::ExJumpIfNot { .. } => EExprToken::ExJumpIfNot,
            KView::ExAssert { .. } => EExprToken::ExAssert,
            KView::ExNothing => EExprToken::ExNothing,
            KView::ExLet { .. } => EExprToken::ExLet,
            KView::ExClassContext { .. } => EExprToken::ExClassContext,
            KView::ExMetaCast { .. } => EExprToken::ExMetaCast,
            KView::ExLetBool { .. } => EExprToken::ExLetBool,
            KView::ExEndParmValue => EExprToken::ExEndParmValue,
            KView::ExEndFunctionParms => EExprToken::ExEndFunctionParms,
            KView::ExSelf => EExprToken::ExSelf,
            KView::ExSkip { .. } => EExprToken::ExSkip,
            KView::ExContext { .. } => EExprToken::ExContext,
            KView::ExContextFailSilent { .. } => EExprToken::ExContextFailSilent,
            KView::ExVirtualFunction { .. } => EExprToken::ExVirtualFunction,
            KView::ExFinalFunction { .. } => EExprToken::ExFinalFunction,
            KView::ExIntConst { .. } => EExprToken::ExIntConst,
            KView::ExFloatConst { .. } => EExprToken::ExFloatConst,
            KView::ExStringConst { .. } => EExprToken::ExStringConst,
            KView::ExObjectConst { .. } => EExprToken::ExObjectConst,
            KView::ExNameConst { .. } => EExprToken::ExNameConst,
            KView::ExRotationConst { .. } => EExprToken::ExRotationConst,
            KView::ExVectorConst { .. } => EExprToken::ExVectorConst,
            KView::ExByteConst { .. } => EExprToken::ExByteConst,
            KView::ExIntZero => EExprToken::ExIntZero,
            KView::ExIntOne => EExprToken::ExIntOne,
            KView::ExTrue => EExprToken::ExTrue,
            KView::ExFalse => EExprToken::ExFalse,
            KView::ExTextConst { .. } => EExprToken::ExTextConst,
            KView::ExNoObject => EExprToken::ExNoObject,
            KView::ExTransformConst { .. } => EExprToken::ExTransformConst,
            KView::ExIntConstByte { .. } => EExprToken::ExIntConstByte,
            KView::ExNoInterface => EExprToken::ExNoInterface,
            KView::ExDynamicCast { .. } => EExprToken::ExDynamicCast,
            KView::ExStructConst { .. } => EExprToken::ExStructConst,
            KView::ExEndStructConst => EExprToken::ExEndStructConst,
            KView::ExSetArray { .. } => EExprToken::ExSetArray,
            KView::ExEndArray => EExprToken::ExEndArray,
            KView::ExPropertyConst { .. } => EExprToken::ExPropertyConst,
            KView::ExUnicodeStringConst { .. } => EExprToken::ExUnicodeStringConst,
            KView::ExInt64Const { .. } => EExprToken::ExInt64Const,
            KView::ExUInt64Const { .. } => EExprToken::ExUInt64Const,
            KView::ExPrimitiveCast { .. } => EExprToken::ExPrimitiveCast,
            KView::ExSetSet { .. } => EExprToken::ExSetSet,
            KView::ExEndSet => EExprToken::ExEndSet,
            KView::ExSetMap { .. } => EExprToken::ExSetMap,
            KView::ExEndMap => EExprToken::ExEndMap,
            KView::ExSetConst { .. } => EExprToken::ExSetConst,
            KView::ExEndSetConst => EExprToken::ExEndSetConst,
            KView::ExMapConst { .. } => EExprToken::ExMapConst,
            KView::ExEndMapConst => EExprToken::ExEndMapConst,
            KView::ExStructMemberContext { .. } => EExprToken::ExStructMemberContext,
            KView::ExLetMulticastDelegate { .. } => EExprToken::ExLetMulticastDelegate,
            KView::ExLetDelegate { .. } => EExprToken::ExLetDelegate,
            KView::ExLocalVirtualFunction { .. } => EExprToken::ExLocalVirtualFunction,
            KView::ExLocalFinalFunction { .. } => EExprToken::ExLocalFinalFunction,
            KView::ExLocalOutVariable { .. } => EExprToken::ExLocalOutVariable,
            KView::ExDeprecatedOp4A => EExprToken::ExDeprecatedOp4A,
            KView::ExInstanceDelegate { .. } => EExprToken::ExInstanceDelegate,
            KView::ExPushExecutionFlow { .. } => EExprToken::ExPushExecutionFlow,
            KView::ExPopExecutionFlow => EExprToken::ExPopExecutionFlow,
            KView::ExComputedJump { .. } => EExprToken::ExComputedJump,
            KView::ExPopExecutionFlowIfNot { .. } => EExprToken::ExPopExecutionFlowIfNot,
            KView::ExBreakpoint => EExprToken::ExBreakpoint,
            KView::ExInterfaceContext { .. } => EExprToken::ExInterfaceContext,
            KView::ExObjToInterfaceCast { .. } => EExprToken::ExObjToInterfaceCast,
            KView::ExEndOfScript => EExprToken::ExEndOfScript,
            KView::ExCrossInterfaceCast { .. } => EExprToken::ExCrossInterfaceCast,
            KView::ExInterfaceToObjCast { .. } => EExprToken::ExInterfaceToObjCast,
            KView::ExWireTracepoint => EExprToken::ExWireTracepoint,
            KView::ExSkipOffsetConst { .. } => EExprToken::ExSkipOffsetConst,
            KView::ExAddMulticastDelegate { .. } => EExprToken::ExAddMulticastDelegate,
            KView::ExClearMulticastDelegate { .. } => EExprToken::ExClearMulticastDelegate,
            KView::ExTracepoint => EExprToken::ExTracepoint,
            KView::ExLetObj { .. } => EExprToken::ExLetObj,
            KView::ExLetWeakObjPtr { .. } => EExprToken::ExLetWeakObjPtr,
            KView::ExBindDelegate { .. } => EExprToken::ExBindDelegate,
            KView::ExRemoveMulticastDelegate { .. } => EExprToken::ExRemoveMulticastDelegate,
            KView::ExCallMulticastDelegate { .. } => EExprToken::ExCallMulticastDelegate,
            KView::ExLetValueOnPersistentFrame { .. } => EExprToken::ExLetValueOnPersistentFrame,
            KView::ExArrayConst { .. } => EExprToken::ExArrayConst,
            KView::ExEndArrayConst => EExprToken::ExEndArrayConst,
            KView::ExSoftObjectConst { .. } => EExprToken::ExSoftObjectConst,
            KView::ExCallMath { .. } => EExprToken::ExCallMath,
            KView::ExSwitchValue { .. } => EExprToken::ExSwitchValue,
            KView::ExInstrumentationEvent { .. } => EExprToken::ExInstrumentationEvent,
            KView::ExArrayGetByRef { .. } => EExprToken::ExArrayGetByRef,
            KView::ExClassSparseDataVariable { .. } => EExprToken::ExClassSparseDataVariable,
            KView::ExFieldPathConst { .. } => EExprToken::ExFieldPathConst,
        }
    }
}

impl KismetExpression {
    /// The token of the expression.
    pub fn get_token(&self) -> (t: EExprToken)
        ensures t == self.view().token(),
    {
        match self {
            KismetExpression::ExLocalVariable { .. } => EExprToken::ExLocalVariable,
            KismetExpression::ExInstanceVariable { .. } => EExprToken::ExInstanceVariable,
            KismetExpression::ExDefaultVariable { .. } => EExprToken::ExDefaultVariable,
            KismetExpression::ExReturn { .. } => EExprToken::ExReturn,
            KismetExpression::ExJump { .. } => EExprToken::ExJump,
            KismetExpression::ExJumpIfNot { .. } => EExprToken::ExJumpIfNot,
            KismetExpression::ExAssert { .. } => EExprToken::ExAssert,
            KismetExpression::ExNothing => EExprToken::ExNothing,
            KismetExpression::ExLet { .. } => EExprToken::ExLet,
            KismetExpression::ExClassContext { .. } => EExprToken::ExClassContext,
            KismetExpression::ExMetaCast { .. } => EExprToken::ExMetaCast,
            KismetExpression::ExLetBool { .. } => EExprToken::ExLetBool,
            KismetExpression::ExEndParmValue => EExprToken::ExEndParmValue,
            KismetExpression::ExEndFunctionParms => EExprToken::ExEndFunctionParms,
            KismetExpression::ExSelf => EExprToken::ExSelf,
            KismetExpression::ExSkip { .. } => EExprToken::ExSkip,
            KismetExpression::ExContext { .. } => EExprToken::ExContext,
            KismetExpression::ExContextFailSilent { .. } => EExprToken::ExContextFailSilent,
            KismetExpression::ExVirtualFunction { .. } => EExprToken::ExVirtualFunction,
            KismetExpression::ExFinalFunction { .. } => EExprToken::ExFinalFunction,
            KismetExpression::ExIntConst { .. } => EExprToken::ExIntConst,
            KismetExpression::ExFloatConst { .. } => EExprToken::ExFloatConst,
            KismetExpression::ExStringConst { .. } => EExprToken::ExStringConst,
            KismetExpression::ExObjectConst { .. } => EExprToken::ExObjectConst,
            KismetExpression::ExNameConst { .. } => EExprToken::ExNameConst,
            KismetExpression::ExRotationConst { .. } => EExprToken::ExRotationConst,
            KismetExpression::ExVectorConst { .. } => EExprToken::ExVectorConst,
            KismetExpression::ExByteConst { .. } => EExprToken::ExByteConst,
            KismetExpression::ExIntZero => EExprToken::ExIntZero,
            KismetExpression::ExIntOne => EExprToken::ExIntOne,
            KismetExpression::ExTrue => EExprToken::ExTrue,
            KismetExpression::ExFalse => EExprToken::ExFalse,
            KismetExpression::ExTextConst { .. } => EExprToken::ExTextConst,
            KismetExpression::ExNoObject => EExprToken::ExNoObject,
            KismetExpression::ExTransformConst { .. } => EExprToken::ExTransformConst,
            KismetExpression::ExIntConstByte { .. } => EExprToken::ExIntConstByte,
            KismetExpression::ExNoInterface => EExprToken::ExNoInterface,
            KismetExpression::ExDynamicCast { .. } => EExprToken::ExDynamicCast,
            KismetExpression::ExStructConst { .. } => EExprToken::ExStructConst,
            KismetExpression::ExEndStructConst => EExprToken::ExEndStructConst,
            KismetExpression::ExSetArray { .. } => EExprToken::ExSetArray,
            KismetExpression::ExEndArray => EExprToken::ExEndArray,
            KismetExpression::ExPropertyConst { .. } => EExprToken::ExPropertyConst,
            KismetExpression::ExUnicodeStringConst { .. } => EExprToken::ExUnicodeStringConst,
            KismetExpression::ExInt64Const { .. } => EExprToken::ExInt64Const,
            KismetExpression::ExUInt64Const { .. } => EExprToken::ExUInt64Const,
            KismetExpression::ExPrimitiveCast { .. } => EExprToken::ExPrimitiveCast,
            KismetExpression::ExSetSet { .. } => EExprToken::ExSetSet,
            KismetExpression::ExEndSet => EExprToken::ExEndSet,
            KismetExpression::ExSetMap { .. } => EExprToken::ExSetMap,
            KismetExpression::ExEndMap => EExprToken::ExEndMap,
            KismetExpression::ExSetConst { .. } => EExprToken::ExSetConst,
            KismetExpression::ExEndSetConst => EExprToken::ExEndSetConst,
            KismetExpression::ExMapConst { .. } => EExprToken::ExMapConst,
            KismetExpression::ExEndMapConst => EExprToken::ExEndMapConst,
            KismetExpression::ExStructMemberContext { .. } => EExprToken::ExStructMemberContext,
            KismetExpression::ExLetMulticastDelegate { .. } => EExprToken::ExLetMulticastDelegate,
            KismetExpression::ExLetDelegate { .. } => EExprToken::ExLetDelegate,
            KismetExpression::ExLocalVirtualFunction { .. } => EExprToken::ExLocalVirtualFunction,
            KismetExpression::ExLocalFinalFunction { .. } => EExprToken::ExLocalFinalFunction,
            KismetExpression::ExLocalOutVariable { .. } => EExprToken::ExLocalOutVariable,
            KismetExpression::ExDeprecatedOp4A => EExprToken::ExDeprecatedOp4A,
            KismetExpression::ExInstanceDelegate { .. } => EExprToken::ExInstanceDelegate,
            KismetExpression::ExPushExecutionFlow { .. } => EExprToken::ExPushExecutionFlow,
            KismetExpression::ExPopExecutionFlow => EExprToken::ExPopExecutionFlow,
            KismetExpression::ExComputedJump { .. } => EExprToken::ExComputedJump,
            KismetExpression::ExPopExecutionFlowIfNot { .. } => EExprToken::ExPopExecutionFlowIfNot,
            KismetExpression::ExBreakpoint => EExprToken::ExBreakpoint,
            KismetExpression::ExInterfaceContext { .. } => EExprToken::ExInterfaceContext,
            KismetExpression::ExObjToInterfaceCast { .. } => EExprToken::ExObjToInterfaceCast,
            KismetExpression::ExEndOfScript => EExprToken::ExEndOfScript,
            KismetExpression::ExCrossInterfaceCast { .. } => EExprToken::ExCrossInterfaceCast,
            KismetExpression::ExInterfaceToObjCast { .. } => EExprToken::ExInterfaceToObjCast,
            KismetExpression::ExWireTracepoint => EExprToken::ExWireTracepoint,
            KismetExpression::ExSkipOffsetConst { .. } => EExprToken::ExSkipOffsetConst,
            KismetExpression::ExAddMulticastDelegate { .. } => EExprToken::ExAddMulticastDelegate,
            KismetExpression::ExClearMulticastDelegate { .. } => EExprToken::ExClearMulticastDelegate,
            KismetExpression::ExTracepoint => EExprToken::ExTracepoint,
            KismetExpression::ExLetObj { .. } => EExprToken::ExLetObj,
            KismetExpression::ExLetWeakObjPtr { .. } => EExprToken::ExLetWeakObjPtr,
            KismetExpression::ExBindDelegate { .. } => EExprToken::ExBindDelegate,
            KismetExpression::ExRemoveMulticastDelegate { .. } => EExprToken::ExRemoveMulticastDelegate,
            KismetExpression::ExCallMulticastDelegate { .. } => EExprToken::ExCallMulticastDelegate,
            KismetExpression::ExLetValueOnPersistentFrame { .. } => EExprToken::ExLetValueOnPersistentFrame,
            KismetExpression::ExArrayConst { .. } => EExprToken::ExArrayConst,
            KismetExpression::ExEndArrayConst => EExprToken::ExEndArrayConst,
            KismetExpression::ExSoftObjectConst { .. } => EExprToken::ExSoftObjectConst,
            KismetExpression::ExCallMath { .. } => EExprToken::ExCallMath,
            KismetExpression::ExSwitchValue { .. } => EExprToken::ExSwitchValue,
            KismetExpression::ExInstrumentationEvent { .. } => EExprToken::ExInstrumentationEvent,
            KismetExpression::ExArrayGetByRef { .. } => EExprToken::ExArrayGetByRef,
            KismetExpression::ExClassSparseDataVariable { .. } => EExprToken::ExClassSparseDataVariable,
            KismetExpression::ExFieldPathConst { .. } => EExprToken::ExFieldPathConst,
        }
    }

    /// Whether the expression has the token `token`.
    pub fn enum_eq(&self, token: &EExprToken) -> (b: bool)
        ensures b == (self.view().token() == *token),
    {
        self.get_token() == *token
    }
}

} // verus!
