//! Kismet tokens: the bytes that name expressions, casts, instrumentation events and text literals.

use vstd::prelude::*;

verus! {

/// Kismet expression token
#[derive(Debug, Clone, Copy, PartialEq, Eq, Hash, Structural)]
pub enum EExprToken {
    /// A local variable.
    ExLocalVariable,
    /// An object variable.
    ExInstanceVariable,
    /// Default variable for a class context.
    ExDefaultVariable,
    /// Return from function.
    ExReturn,
    /// Goto a local address in code.
    ExJump,
    /// Goto if not expression.
    ExJumpIfNot,
    /// Assertion.
    ExAssert,
    /// No operation.
    ExNothing,
    /// Assign an arbitrary size value to a variable.
    ExLet,
    /// Class default object context.
    ExClassContext,
    /// Metaclass cast.
    ExMetaCast,
    /// Let boolean variable.
    ExLetBool,
    /// end of default value for optional function parameter
    ExEndParmValue,
    /// End of function call parameters.
    ExEndFunctionParms,
    /// Self object.
    ExSelf,
    /// Skippable expression.
    ExSkip,
    /// Call a function through an object context.
    ExContext,
    /// Call a function through an object context (can fail silently if the context is NULL; only generated for functions that don't have output or return values).
    ExContextFailSilent,
    /// A function call with parameters.
    ExVirtualFunction,
    /// A prebound function call with parameters.
    ExFinalFunction,
    /// Int constant.
    ExIntConst,
    /// Floating point constant.
    ExFloatConst,
    /// String constant.
    ExStringConst,
    /// An object constant.
    ExObjectConst,
    /// A name constant.
    ExNameConst,
    /// A rotation constant.
    ExRotationConst,
    /// A vector constant.
    ExVectorConst,
    /// A byte constant.
    ExByteConst,
    /// Zero.
    ExIntZero,
    /// One.
    ExIntOne,
    /// Bool True.
    ExTrue,
    /// Bool False.
    ExFalse,
    /// FText constant
    ExTextConst,
    /// NoObject.
    ExNoObject,
    /// A transform constant
    ExTransformConst,
    /// Int constant that requires 1 byte.
    ExIntConstByte,
    /// A null interface (similar to ExNoObject, but for interfaces)
    ExNoInterface,
    /// Safe dynamic class casting.
    ExDynamicCast,
    /// An arbitrary UStruct constant
    ExStructConst,
    /// End of UStruct constant
    ExEndStructConst,
    /// Set the value of arbitrary array
    ExSetArray,
    /// End an array
    ExEndArray,
    /// FProperty constant.
    ExPropertyConst,
    /// Unicode string constant.
    ExUnicodeStringConst,
    /// 64-bit integer constant.
    ExInt64Const,
    /// 64-bit unsigned integer constant.
    ExUInt64Const,
    /// A casting operator for primitives which reads the type as the subsequent byte
    ExPrimitiveCast,
    /// Set the value of an arbitrary set
    ExSetSet,
    /// End a set
    ExEndSet,
    /// Set the value of an arbitrary map
    ExSetMap,
    /// End a map
    ExEndMap,
    /// Set a value of an arbitrary const
    ExSetConst,
    /// End const
    ExEndSetConst,
    /// Create a constant map
    ExMapConst,
    /// End a constant map
    ExEndMapConst,
    /// Context expression to address a property within a struct
    ExStructMemberContext,
    /// Assignment to a multi-cast delegate
    ExLetMulticastDelegate,
    /// Assignment to a delegate
    ExLetDelegate,
    /// Special instructions to quickly call a virtual function that we know is going to run only locally
    ExLocalVirtualFunction,
    /// Special instructions to quickly call a final function that we know is going to run only locally
    ExLocalFinalFunction,
    /// local out (pass by reference) function parameter
    ExLocalOutVariable,
    /// Deprecated operation
    ExDeprecatedOp4A,
    /// const reference to a delegate or normal function object
    ExInstanceDelegate,
    /// push an address on to the execution flow stack for future execution when a ExPopExecutionFlow is executed. Execution continues on normally and doesn't change to the pushed address.
    ExPushExecutionFlow,
    /// continue execution at the last address previously pushed onto the execution flow stack.
    ExPopExecutionFlow,
    /// Goto a local address in code, specified by an integer value.
    ExComputedJump,
    /// continue execution at the last address previously pushed onto the execution flow stack, if the condition is not true.
    ExPopExecutionFlowIfNot,
    /// Breakpoint. Only observed in the editor, otherwise it behaves like ExNothing.
    ExBreakpoint,
    /// Call a function through a native interface variable
    ExInterfaceContext,
    /// Converting an object reference to native interface variable
    ExObjToInterfaceCast,
    /// Last byte in script code
    ExEndOfScript,
    /// Converting an interface variable reference to native interface variable
    ExCrossInterfaceCast,
    /// Converting an interface variable reference to an object
    ExInterfaceToObjCast,
    /// Trace point.  Only observed in the editor, otherwise it behaves like ExNothing.
    ExWireTracepoint,
    /// A CodeSizeSkipOffset constant
    ExSkipOffsetConst,
    /// Adds a delegate to a multicast delegate's targets
    ExAddMulticastDelegate,
    /// Clears all delegates in a multicast target
    ExClearMulticastDelegate,
    /// Trace point.  Only observed in the editor, otherwise it behaves like ExNothing.
    ExTracepoint,
    /// assign to any object ref pointer
    ExLetObj,
    /// assign to a weak object pointer
    ExLetWeakObjPtr,
    /// bind object and name to delegate
    ExBindDelegate,
    /// Remove a delegate from a multicast delegate's targets
    ExRemoveMulticastDelegate,
    /// Call multicast delegate
    ExCallMulticastDelegate,
    /// Let value on persistent frame
    ExLetValueOnPersistentFrame,
    /// Declare an array const
    ExArrayConst,
    /// End an array const
    ExEndArrayConst,
    /// Declare a soft object const
    ExSoftObjectConst,
    /// static pure function from on local call space
    ExCallMath,
    /// Switch value
    ExSwitchValue,
    /// Instrumentation event
    ExInstrumentationEvent,
    /// Get array by ref
    ExArrayGetByRef,
    /// Sparse data variable
    ExClassSparseDataVariable,
    /// Decclare a field path const
    ExFieldPathConst,
    /// Max
    ExMax,
}

impl EExprToken {
    /// The byte of the value.
    pub open spec fn spec_value(self) -> u8 {
        match self {
            EExprToken::ExLocalVariable => 0x00u8,
            EExprToken::ExInstanceVariable => 0x01u8,
            EExprToken::ExDefaultVariable => 0x02u8,
            EExprToken::ExReturn => 0x04u8,
            EExprToken::ExJump => 0x06u8,
            EExprToken::ExJumpIfNot => 0x07u8,
            EExprToken::ExAssert => 0x09u8,
            EExprToken::ExNothing => 0x0Bu8,
            EExprToken::ExLet => 0x0Fu8,
            EExprToken::ExClassContext => 0x12u8,
            EExprToken::ExMetaCast => 0x13u8,
            EExprToken::ExLetBool => 0x14u8,
            EExprToken::ExEndParmValue => 0x15u8,
            EExprToken::ExEndFunctionParms => 0x16u8,
            EExprToken::ExSelf => 0x17u8,
            EExprToken::ExSkip => 0x18u8,
            EExprToken::ExContext => 0x19u8,
            EExprToken::ExContextFailSilent => 0x1Au8,
            EExprToken::ExVirtualFunction => 0x1Bu8,
            EExprToken::ExFinalFunction => 0x1Cu8,
            EExprToken::ExIntConst => 0x1Du8,
            EExprToken::ExFloatConst => 0x1Eu8,
            EExprToken::ExStringConst => 0x1Fu8,
            EExprToken::ExObjectConst => 0x20u8,
            EExprToken::ExNameConst => 0x21u8,
            EExprToken::ExRotationConst => 0x22u8,
            EExprToken::ExVectorConst => 0x23u8,
            EExprToken::ExByteConst => 0x24u8,
            EExprToken::ExIntZero => 0x25u8,
            EExprToken::ExIntOne => 0x26u8,
            EExprToken::ExTrue => 0x27u8,
            EExprToken::ExFalse => 0x28u8,
            EExprToken::ExTextConst => 0x29u8,
            EExprToken::ExNoObject => 0x2Au8,
            EExprToken::ExTransformConst => 0x2Bu8,
            EExprToken::ExIntConstByte => 0x2Cu8,
            EExprToken::ExNoInterface => 0x2Du8,
            EExprToken::ExDynamicCast => 0x2Eu8,
            EExprToken::ExStructConst => 0x2Fu8,
            EExprToken::ExEndStructConst => 0x30u8,
            EExprToken::ExSetArray => 0x31u8,
            EExprToken::ExEndArray => 0x32u8,
            EExprToken::ExPropertyConst => 0x33u8,
            EExprToken::ExUnicodeStringConst => 0x34u8,
            EExprToken::ExInt64Const => 0x35u8,
            EExprToken::ExUInt64Const => 0x36u8,
            EExprToken::ExPrimitiveCast => 0x38u8,
            EExprToken::ExSetSet => 0x39u8,
            EExprToken::ExEndSet => 0x3Au8,
            EExprToken::ExSetMap => 0x3Bu8,
            EExprToken::ExEndMap => 0x3Cu8,
            EExprToken::ExSetConst => 0x3Du8,
            EExprToken::ExEndSetConst => 0x3Eu8,
            EExprToken::ExMapConst => 0x3Fu8,
            EExprToken::ExEndMapConst => 0x40u8,
            EExprToken::ExStructMemberContext => 0x42u8,
            EExprToken::ExLetMulticastDelegate => 0x43u8,
            EExprToken::ExLetDelegate => 0x44u8,
            EExprToken::ExLocalVirtualFunction => 0x45u8,
            EExprToken::ExLocalFinalFunction => 0x46u8,
            EExprToken::ExLocalOutVariable => 0x48u8,
            EExprToken::ExDeprecatedOp4A => 0x4Au8,
            EExprToken::ExInstanceDelegate => 0x4Bu8,
            EExprToken::ExPushExecutionFlow => 0x4Cu8,
            EExprToken::ExPopExecutionFlow => 0x4Du8,
            EExprToken::ExComputedJump => 0x4Eu8,
            EExprToken::ExPopExecutionFlowIfNot => 0x4Fu8,
            EExprToken::ExBreakpoint => 0x50u8,
            EExprToken::ExInterfaceContext => 0x51u8,
            EExprToken::ExObjToInterfaceCast => 0x52u8,
            EExprToken::ExEndOfScript => 0x53u8,
            EExprToken::ExCrossInterfaceCast => 0x54u8,
            EExprToken::ExInterfaceToObjCast => 0x55u8,
            EExprToken::ExWireTracepoint => 0x5Au8,
            EExprToken::ExSkipOffsetConst => 0x5Bu8,
            EExprToken::ExAddMulticastDelegate => 0x5Cu8,
            EExprToken::ExClearMulticastDelegate => 0x5Du8,
            EExprToken::ExTracepoint => 0x5Eu8,
            EExprToken::ExLetObj => 0x5Fu8,
            EExprToken::ExLetWeakObjPtr => 0x60u8,
            EExprToken::ExBindDelegate => 0x61u8,
            EExprToken::ExRemoveMulticastDelegate => 0x62u8,
            EExprToken::ExCallMulticastDelegate => 0x63u8,
            EExprToken::ExLetValueOnPersistentFrame => 0x64u8,
            EExprToken::ExArrayConst => 0x65u8,
            EExprToken::ExEndArrayConst => 0x66u8,
            EExprToken::ExSoftObjectConst => 0x67u8,
            EExprToken::ExCallMath => 0x68u8,
            EExprToken::ExSwitchValue => 0x69u8,
            EExprToken::ExInstrumentationEvent => 0x6Au8,
            EExprToken::ExArrayGetByRef => 0x6Bu8,
            EExprToken::ExClassSparseDataVariable => 0x6Cu8,
            EExprToken::ExFieldPathConst => 0x6Du8,
            EExprToken::ExMax => 0xFFu8,
        }
    }

    /// The byte of the value.
    pub fn value(self) -> (r: u8)
        ensures r == self.spec_value(),
    {
        match self {
            EExprToken::ExLocalVariable => 0x00,
            EExprToken::ExInstanceVariable => 0x01,
            EExprToken::ExDefaultVariable => 0x02,
            EExprToken::ExReturn => 0x04,
            EExprToken::ExJump => 0x06,
            EExprToken::ExJumpIfNot => 0x07,
            EExprToken::ExAssert => 0x09,
            EExprToken::ExNothing => 0x0B,
            EExprToken::ExLet => 0x0F,
            EExprToken::ExClassContext => 0x12,
            EExprToken::ExMetaCast => 0x13,
            EExprToken::ExLetBool => 0x14,
            EExprToken::ExEndParmValue => 0x15,
            EExprToken::ExEndFunctionParms => 0x16,
            EExprToken::ExSelf => 0x17,
            EExprToken::ExSkip => 0x18,
            EExprToken::ExContext => 0x19,
            EExprToken::ExContextFailSilent => 0x1A,
            EExprToken::ExVirtualFunction => 0x1B,
            EExprToken::ExFinalFunction => 0x1C,
            EExprToken::ExIntConst => 0x1D,
            EExprToken::ExFloatConst => 0x1E,
            EExprToken::ExStringConst => 0x1F,
            EExprToken::ExObjectConst => 0x20,
            EExprToken::ExNameConst => 0x21,
            EExprToken::ExRotationConst => 0x22,
            EExprToken::ExVectorConst => 0x23,
            EExprToken::ExByteConst => 0x24,
            EExprToken::ExIntZero => 0x25,
            EExprToken::ExIntOne => 0x26,
            EExprToken::ExTrue => 0x27,
            EExprToken::ExFalse => 0x28,
            EExprToken::ExTextConst => 0x29,
            EExprToken::ExNoObject => 0x2A,
            EExprToken::ExTransformConst => 0x2B,
            EExprToken::ExIntConstByte => 0x2C,
            EExprToken::ExNoInterface => 0x2D,
            EExprToken::ExDynamicCast => 0x2E,
            EExprToken::ExStructConst => 0x2F,
            EExprToken::ExEndStructConst => 0x30,
            EExprToken::ExSetArray => 0x31,
            EExprToken::ExEndArray => 0x32,
            EExprToken::ExPropertyConst => 0x33,
            EExprToken::ExUnicodeStringConst => 0x34,
            EExprToken::ExInt64Const => 0x35,
            EExprToken::ExUInt64Const => 0x36,
            EExprToken::ExPrimitiveCast => 0x38,
            EExprToken::ExSetSet => 0x39,
            EExprToken::ExEndSet => 0x3A,
            EExprToken::ExSetMap => 0x3B,
            EExprToken::ExEndMap => 0x3C,
            EExprToken::ExSetConst => 0x3D,
            EExprToken::ExEndSetConst => 0x3E,
            EExprToken::ExMapConst => 0x3F,
            EExprToken::ExEndMapConst => 0x40,
            EExprToken::ExStructMemberContext => 0x42,
            EExprToken::ExLetMulticastDelegate => 0x43,
            EExprToken::ExLetDelegate => 0x44,
            EExprToken::ExLocalVirtualFunction => 0x45,
            EExprToken::ExLocalFinalFunction => 0x46,
            EExprToken::ExLocalOutVariable => 0x48,
            EExprToken::ExDeprecatedOp4A => 0x4A,
            EExprToken::ExInstanceDelegate => 0x4B,
            EExprToken::ExPushExecutionFlow => 0x4C,
            EExprToken::ExPopExecutionFlow => 0x4D,
            EExprToken::ExComputedJump => 0x4E,
            EExprToken::ExPopExecutionFlowIfNot => 0x4F,
            EExprToken::ExBreakpoint => 0x50,
            EExprToken::ExInterfaceContext => 0x51,
            EExprToken::ExObjToInterfaceCast => 0x52,
            EExprToken::ExEndOfScript => 0x53,
            EExprToken::ExCrossInterfaceCast => 0x54,
            EExprToken::ExInterfaceToObjCast => 0x55,
            EExprToken::ExWireTracepoint => 0x5A,
            EExprToken::ExSkipOffsetConst => 0x5B,
            EExprToken::ExAddMulticastDelegate => 0x5C,
            EExprToken::ExClearMulticastDelegate => 0x5D,
            EExprToken::ExTracepoint => 0x5E,
            EExprToken::ExLetObj => 0x5F,
            EExprToken::ExLetWeakObjPtr => 0x60,
            EExprToken::ExBindDelegate => 0x61,
            EExprToken::ExRemoveMulticastDelegate => 0x62,
            EExprToken::ExCallMulticastDelegate => 0x63,
            EExprToken::ExLetValueOnPersistentFrame => 0x64,
            EExprToken::ExArrayConst => 0x65,
            EExprToken::ExEndArrayConst => 0x66,
            EExprToken::ExSoftObjectConst => 0x67,
            EExprToken::ExCallMath => 0x68,
            EExprToken::ExSwitchValue => 0x69,
            EExprToken::ExInstrumentationEvent => 0x6A,
            EExprToken::ExArrayGetByRef => 0x6B,
            EExprToken::ExClassSparseDataVariable => 0x6C,
            EExprToken::ExFieldPathConst => 0x6D,
            EExprToken::ExMax => 0xFF,
        }
    }

    /// The value of a byte, where it names one.
    pub open spec fn spec_from_u8(v: u8) -> Option<Self> {
        if v == 0x00 { Some(EExprToken::ExLocalVariable) }
        else if v == 0x01 { Some(EExprToken::ExInstanceVariable) }
        else if v == 0x02 { Some(EExprToken::ExDefaultVariable) }
        else if v == 0x04 { Some(EExprToken::ExReturn) }
        else if v == 0x06 { Some(EExprToken::ExJump) }
        else if v == 0x07 { Some(EExprToken::ExJumpIfNot) }
        else if v == 0x09 { Some(EExprToken::ExAssert) }
        else if v == 0x0B { Some(EExprToken::ExNothing) }
        else if v == 0x0F { Some(EExprToken::ExLet) }
        else if v == 0x12 { Some(EExprToken::ExClassContext) }
        else if v == 0x13 { Some(EExprToken::ExMetaCast) }
        else if v == 0x14 { Some(EExprToken::ExLetBool) }
        else if v == 0x15 { Some(EExprToken::ExEndParmValue) }
        else if v == 0x16 { Some(EExprToken::ExEndFunctionParms) }
        else if v == 0x17 { Some(EExprToken::ExSelf) }
        else if v == 0x18 { Some(EExprToken::ExSkip) }
        else if v == 0x19 { Some(EExprToken::ExContext) }
        else if v == 0x1A { Some(EExprToken::ExContextFailSilent) }
        else if v == 0x1B { Some(EExprToken::ExVirtualFunction) }
        else if v == 0x1C { Some(EExprToken::ExFinalFunction) }
        else if v == 0x1D { Some(EExprToken::ExIntConst) }
        else if v == 0x1E { Some(EExprToken::ExFloatConst) }
        else if v == 0x1F { Some(EExprToken::ExStringConst) }
        else if v == 0x20 { Some(EExprToken::ExObjectConst) }
        else if v == 0x21 { Some(EExprToken::ExNameConst) }
        else if v == 0x22 { Some(EExprToken::ExRotationConst) }
        else if v == 0x23 { Some(EExprToken::ExVectorConst) }
        else if v == 0x24 { Some(EExprToken::ExByteConst) }
        else if v == 0x25 { Some(EExprToken::ExIntZero) }
        else if v == 0x26 { Some(EExprToken::ExIntOne) }
        else if v == 0x27 { Some(EExprToken::ExTrue) }
        else if v == 0x28 { Some(EExprToken::ExFalse) }
        else if v == 0x29 { Some(EExprToken::ExTextConst) }
        else if v == 0x2A { Some(EExprToken::ExNoObject) }
        else if v == 0x2B { Some(EExprToken::ExTransformConst) }
        else if v == 0x2C { Some(EExprToken::ExIntConstByte) }
        else if v == 0x2D { Some(EExprToken::ExNoInterface) }
        else if v == 0x2E { Some(EExprToken::ExDynamicCast) }
        else if v == 0x2F { Some(EExprToken::ExStructConst) }
        else if v == 0x30 { Some(EExprToken::ExEndStructConst) }
        else if v == 0x31 { Some(EExprToken::ExSetArray) }
        else if v == 0x32 { Some(EExprToken::ExEndArray) }
        else if v == 0x33 { Some(EExprToken::ExPropertyConst) }
        else if v == 0x34 { Some(EExprToken::ExUnicodeStringConst) }
        else if v == 0x35 { Some(EExprToken::ExInt64Const) }
        else if v == 0x36 { Some(EExprToken::ExUInt64Const) }
        else if v == 0x38 { Some(EExprToken::ExPrimitiveCast) }
        else if v == 0x39 { Some(EExprToken::ExSetSet) }
        else if v == 0x3A { Some(EExprToken::ExEndSet) }
        else if v == 0x3B { Some(EExprToken::ExSetMap) }
        else if v == 0x3C { Some(EExprToken::ExEndMap) }
        else if v == 0x3D { Some(EExprToken::ExSetConst) }
        else if v == 0x3E { Some(EExprToken::ExEndSetConst) }
        else if v == 0x3F { Some(EExprToken::ExMapConst) }
        else if v == 0x40 { Some(EExprToken::ExEndMapConst) }
        else if v == 0x42 { Some(EExprToken::ExStructMemberContext) }
        else if v == 0x43 { Some(EExprToken::ExLetMulticastDelegate) }
        else if v == 0x44 { Some(EExprToken::ExLetDelegate) }
        else if v == 0x45 { Some(EExprToken::ExLocalVirtualFunction) }
        else if v == 0x46 { Some(EExprToken::ExLocalFinalFunction) }
        else if v == 0x48 { Some(EExprToken::ExLocalOutVariable) }
        else if v == 0x4A { Some(EExprToken::ExDeprecatedOp4A) }
        else if v == 0x4B { Some(EExprToken::ExInstanceDelegate) }
        else if v == 0x4C { Some(EExprToken::ExPushExecutionFlow) }
        else if v == 0x4D { Some(EExprToken::ExPopExecutionFlow) }
        else if v == 0x4E { Some(EExprToken::ExComputedJump) }
        else if v == 0x4F { Some(EExprToken::ExPopExecutionFlowIfNot) }
        else if v == 0x50 { Some(EExprToken::ExBreakpoint) }
        else if v == 0x51 { Some(EExprToken::ExInterfaceContext) }
        else if v == 0x52 { Some(EExprToken::ExObjToInterfaceCast) }
        else if v == 0x53 { Some(EExprToken::ExEndOfScript) }
        else if v == 0x54 { Some(EExprToken::ExCrossInterfaceCast) }
        else if v == 0x55 { Some(EExprToken::ExInterfaceToObjCast) }
        else if v == 0x5A { Some(EExprToken::ExWireTracepoint) }
        else if v == 0x5B { Some(EExprToken::ExSkipOffsetConst) }
        else if v == 0x5C { Some(EExprToken::ExAddMulticastDelegate) }
        else if v == 0x5D { Some(EExprToken::ExClearMulticastDelegate) }
        else if v == 0x5E { Some(EExprToken::ExTracepoint) }
        else if v == 0x5F { Some(EExprToken::ExLetObj) }
        else if v == 0x60 { Some(EExprToken::ExLetWeakObjPtr) }
        else if v == 0x61 { Some(EExprToken::ExBindDelegate) }
        else if v == 0x62 { Some(EExprToken::ExRemoveMulticastDelegate) }
        else if v == 0x63 { Some(EExprToken::ExCallMulticastDelegate) }
        else if v == 0x64 { Some(EExprToken::ExLetValueOnPersistentFrame) }
        else if v == 0x65 { Some(EExprToken::ExArrayConst) }
        else if v == 0x66 { Some(EExprToken::ExEndArrayConst) }
        else if v == 0x67 { Some(EExprToken::ExSoftObjectConst) }
        else if v == 0x68 { Some(EExprToken::ExCallMath) }
        else if v == 0x69 { Some(EExprToken::ExSwitchValue) }
        else if v == 0x6A { Some(EExprToken::ExInstrumentationEvent) }
        else if v == 0x6B { Some(EExprToken::ExArrayGetByRef) }
        else if v == 0x6C { Some(EExprToken::ExClassSparseDataVariable) }
        else if v == 0x6D { Some(EExprToken::ExFieldPathConst) }
        else if v == 0xFF { Some(EExprToken::ExMax) }
        else { None }
    }

    /// The value of a byte, where it names one.
    pub fn try_from_u8(v: u8) -> (r: Option<Self>)
        ensures r == Self::spec_from_u8(v),
    {
        match v {
            0x00 => Some(EExprToken::ExLocalVariable),
            0x01 => Some(EExprToken::ExInstanceVariable),
            0x02 => Some(EExprToken::ExDefaultVariable),
            0x04 => Some(EExprToken::ExReturn),
            0x06 => Some(EExprToken::ExJump),
            0x07 => Some(EExprToken::ExJumpIfNot),
            0x09 => Some(EExprToken::ExAssert),
            0x0B => Some(EExprToken::ExNothing),
            0x0F => Some(EExprToken::ExLet),
            0x12 => Some(EExprToken::ExClassContext),
            0x13 => Some(EExprToken::ExMetaCast),
            0x14 => Some(EExprToken::ExLetBool),
            0x15 => Some(EExprToken::ExEndParmValue),
            0x16 => Some(EExprToken::ExEndFunctionParms),
            0x17 => Some(EExprToken::ExSelf),
            0x18 => Some(EExprToken::ExSkip),
            0x19 => Some(EExprToken::ExContext),
            0x1A => Some(EExprToken::ExContextFailSilent),
            0x1B => Some(EExprToken::ExVirtualFunction),
            0x1C => Some(EExprToken::ExFinalFunction),
            0x1D => Some(EExprToken::ExIntConst),
            0x1E => Some(EExprToken::ExFloatConst),
            0x1F => Some(EExprToken::ExStringConst),
            0x20 => Some(EExprToken::ExObjectConst),
            0x21 => Some(EExprToken::ExNameConst),
            0x22 => Some(EExprToken::ExRotationConst),
            0x23 => Some(EExprToken::ExVectorConst),
            0x24 => Some(EExprToken::ExByteConst),
            0x25 => Some(EExprToken::ExIntZero),
            0x26 => Some(EExprToken::ExIntOne),
            0x27 => Some(EExprToken::ExTrue),
            0x28 => Some(EExprToken::ExFalse),
            0x29 => Some(EExprToken::ExTextConst),
            0x2A => Some(EExprToken::ExNoObject),
            0x2B => Some(EExprToken::ExTransformConst),
            0x2C => Some(EExprToken::ExIntConstByte),
            0x2D => Some(EExprToken::ExNoInterface),
            0x2E => Some(EExprToken::ExDynamicCast),
            0x2F => Some(EExprToken::ExStructConst),
            0x30 => Some(EExprToken::ExEndStructConst),
            0x31 => Some(EExprToken::ExSetArray),
            0x32 => Some(EExprToken::ExEndArray),
            0x33 => Some(EExprToken::ExPropertyConst),
            0x34 => Some(EExprToken::ExUnicodeStringConst),
            0x35 => Some(EExprToken::ExInt64Const),
            0x36 => Some(EExprToken::ExUInt64Const),
            0x38 => Some(EExprToken::ExPrimitiveCast),
            0x39 => Some(EExprToken::ExSetSet),
            0x3A => Some(EExprToken::ExEndSet),
            0x3B => Some(EExprToken::ExSetMap),
            0x3C => Some(EExprToken::ExEndMap),
            0x3D => Some(EExprToken::ExSetConst),
            0x3E => Some(EExprToken::ExEndSetConst),
            0x3F => Some(EExprToken::ExMapConst),
            0x40 => Some(EExprToken::ExEndMapConst),
            0x42 => Some(EExprToken::ExStructMemberContext),
            0x43 => Some(EExprToken::ExLetMulticastDelegate),
            0x44 => Some(EExprToken::ExLetDelegate),
            0x45 => Some(EExprToken::ExLocalVirtualFunction),
            0x46 => Some(EExprToken::ExLocalFinalFunction),
            0x48 => Some(EExprToken::ExLocalOutVariable),
            0x4A => Some(EExprToken::ExDeprecatedOp4A),
            0x4B => Some(EExprToken::ExInstanceDelegate),
            0x4C => Some(EExprToken::ExPushExecutionFlow),
            0x4D => Some(EExprToken::ExPopExecutionFlow),
            0x4E => Some(EExprToken::ExComputedJump),
            0x4F => Some(EExprToken::ExPopExecutionFlowIfNot),
            0x50 => Some(EExprToken::ExBreakpoint),
            0x51 => Some(EExprToken::ExInterfaceContext),
            0x52 => Some(EExprToken::ExObjToInterfaceCast),
            0x53 => Some(EExprToken::ExEndOfScript),
            0x54 => Some(EExprToken::ExCrossInterfaceCast),
            0x55 => Some(EExprToken::ExInterfaceToObjCast),
            0x5A => Some(EExprToken::ExWireTracepoint),
            0x5B => Some(EExprToken::ExSkipOffsetConst),
            0x5C => Some(EExprToken::ExAddMulticastDelegate),
            0x5D => Some(EExprToken::ExClearMulticastDelegate),
            0x5E => Some(EExprToken::ExTracepoint),
            0x5F => Some(EExprToken::ExLetObj),
            0x60 => Some(EExprToken::ExLetWeakObjPtr),
            0x61 => Some(EExprToken::ExBindDelegate),
            0x62 => Some(EExprToken::ExRemoveMulticastDelegate),
            0x63 => Some(EExprToken::ExCallMulticastDelegate),
            0x64 => Some(EExprToken::ExLetValueOnPersistentFrame),
            0x65 => Some(EExprToken::ExArrayConst),
            0x66 => Some(EExprToken::ExEndArrayConst),
            0x67 => Some(EExprToken::ExSoftObjectConst),
            0x68 => Some(EExprToken::ExCallMath),
            0x69 => Some(EExprToken::ExSwitchValue),
            0x6A => Some(EExprToken::ExInstrumentationEvent),
            0x6B => Some(EExprToken::ExArrayGetByRef),
            0x6C => Some(EExprToken::ExClassSparseDataVariable),
            0x6D => Some(EExprToken::ExFieldPathConst),
            0xFF => Some(EExprToken::ExMax),
            _ => None,
        }
    }
}

/// Kismet cast token
#[derive(Debug, Clone, Copy, PartialEq, Eq, Hash, Structural)]
pub enum ECastToken {
    /// Cast object to interface
    ObjectToInterface,
    /// Cast object to bool
    ObjectToBool,
    /// Cast interface to bool
    InterfaceToBool,
    /// Max
    Max,
}

impl ECastToken {
    /// The byte of the value.
    pub open spec fn spec_value(self) -> u8 {
        match self {
            ECastToken::ObjectToInterface => 0x46u8,
            ECastToken::ObjectToBool => 0x47u8,
            ECastToken::InterfaceToBool => 0x49u8,
            ECastToken::Max => 0xFFu8,
        }
    }

    /// The byte of the value.
    pub fn value(self) -> (r: u8)
        ensures r == self.spec_value(),
    {
        match self {
            ECastToken::ObjectToInterface => 0x46,
            ECastToken::ObjectToBool => 0x47,
            ECastToken::InterfaceToBool => 0x49,
            ECastToken::Max => 0xFF,
        }
    }

    /// The value of a byte, where it names one.
    pub open spec fn spec_from_u8(v: u8) -> Option<Self> {
        if v == 0x46 { Some(ECastToken::ObjectToInterface) }
        else if v == 0x47 { Some(ECastToken::ObjectToBool) }
        else if v == 0x49 { Some(ECastToken::InterfaceToBool) }
        else if v == 0xFF { Some(ECastToken::Max) }
        else { None }
    }

    /// The value of a byte, where it names one.
    pub fn try_from_u8(v: u8) -> (r: Option<Self>)
        ensures r == Self::spec_from_u8(v),
    {
        match v {
            0x46 => Some(ECastToken::ObjectToInterface),
            0x47 => Some(ECastToken::ObjectToBool),
            0x49 => Some(ECastToken::InterfaceToBool),
            0xFF => Some(ECastToken::Max),
            _ => None,
        }
    }
}

/// Kismet instrumentation type
#[derive(Debug, Clone, Copy, PartialEq, Eq, Hash, Structural)]
pub enum EScriptInstrumentationType {
    /// Class
    Class,
    /// Class scope
    ClassScope,
    /// Instance
    Instance,
    /// Event
    Event,
    /// Inline event
    InlineEvent,
    /// Resume event
    ResumeEvent,
    /// Pure node entry
    PureNodeEntry,
    /// Node debug site
    NodeDebugSite,
    /// Node entry
    NodeEntry,
    /// Node exit
    NodeExit,
    /// Push state
    PushState,
    /// Restore state
    RestoreState,
    /// Reset state
    ResetState,
    /// Suspend state
    SuspendState,
    /// Pop state
    PopState,
    /// Tunnel end of thread
    TunnelEndOfThread,
    /// Stop
    Stop,
}

impl EScriptInstrumentationType {
    /// The byte of the value.
    pub open spec fn spec_value(self) -> u8 {
        match self {
            EScriptInstrumentationType::Class => 0x00u8,
            EScriptInstrumentationType::ClassScope => 0x01u8,
            EScriptInstrumentationType::Instance => 0x02u8,
            EScriptInstrumentationType::Event => 0x03u8,
            EScriptInstrumentationType::InlineEvent => 0x04u8,
            EScriptInstrumentationType::ResumeEvent => 0x05u8,
            EScriptInstrumentationType::PureNodeEntry => 0x06u8,
            EScriptInstrumentationType::NodeDebugSite => 0x07u8,
            EScriptInstrumentationType::NodeEntry => 0x08u8,
            EScriptInstrumentationType::NodeExit => 0x09u8,
            EScriptInstrumentationType::PushState => 0x0Au8,
            EScriptInstrumentationType::RestoreState => 0x0Bu8,
            EScriptInstrumentationType::ResetState => 0x0Cu8,
            EScriptInstrumentationType::SuspendState => 0x0Du8,
            EScriptInstrumentationType::PopState => 0x0Eu8,
            EScriptInstrumentationType::TunnelEndOfThread => 0x0Fu8,
            EScriptInstrumentationType::Stop => 0x10u8,
        }
    }

    /// The byte of the value.
    pub fn value(self) -> (r: u8)
        ensures r == self.spec_value(),
    {
        match self {
            EScriptInstrumentationType::Class => 0x00,
            EScriptInstrumentationType::ClassScope => 0x01,
            EScriptInstrumentationType::Instance => 0x02,
            EScriptInstrumentationType::Event => 0x03,
            EScriptInstrumentationType::InlineEvent => 0x04,
            EScriptInstrumentationType::ResumeEvent => 0x05,
            EScriptInstrumentationType::PureNodeEntry => 0x06,
            EScriptInstrumentationType::NodeDebugSite => 0x07,
            EScriptInstrumentationType::NodeEntry => 0x08,
            EScriptInstrumentationType::NodeExit => 0x09,
            EScriptInstrumentationType::PushState => 0x0A,
            EScriptInstrumentationType::RestoreState => 0x0B,
            EScriptInstrumentationType::ResetState => 0x0C,
            EScriptInstrumentationType::SuspendState => 0x0D,
            EScriptInstrumentationType::PopState => 0x0E,
            EScriptInstrumentationType::TunnelEndOfThread => 0x0F,
            EScriptInstrumentationType::Stop => 0x10,
        }
    }

    /// The value of a byte, where it names one.
    pub open spec fn spec_from_u8(v: u8) -> Option<Self> {
        if v == 0x00 { Some(EScriptInstrumentationType::Class) }
        else if v == 0x01 { Some(EScriptInstrumentationType::ClassScope) }
        else if v == 0x02 { Some(EScriptInstrumentationType::Instance) }
        else if v == 0x03 { Some(EScriptInstrumentationType::Event) }
        else if v == 0x04 { Some(EScriptInstrumentationType::InlineEvent) }
        else if v == 0x05 { Some(EScriptInstrumentationType::ResumeEvent) }
        else if v == 0x06 { Some(EScriptInstrumentationType::PureNodeEntry) }
        else if v == 0x07 { Some(EScriptInstrumentationType::NodeDebugSite) }
        else if v == 0x08 { Some(EScriptInstrumentationType::NodeEntry) }
        else if v == 0x09 { Some(EScriptInstrumentationType::NodeExit) }
        else if v == 0x0A { Some(EScriptInstrumentationType::PushState) }
        else if v == 0x0B { Some(EScriptInstrumentationType::RestoreState) }
        else if v == 0x0C { Some(EScriptInstrumentationType::ResetState) }
        else if v == 0x0D { Some(EScriptInstrumentationType::SuspendState) }
        else if v == 0x0E { Some(EScriptInstrumentationType::PopState) }
        else if v == 0x0F { Some(EScriptInstrumentationType::TunnelEndOfThread) }
        else if v == 0x10 { Some(EScriptInstrumentationType::Stop) }
        else { None }
    }

    /// The value of a byte, where it names one.
    pub fn try_from_u8(v: u8) -> (r: Option<Self>)
        ensures r == Self::spec_from_u8(v),
    {
        match v {
            0x00 => Some(EScriptInstrumentationType::Class),
            0x01 => Some(EScriptInstrumentationType::ClassScope),
            0x02 => Some(EScriptInstrumentationType::Instance),
            0x03 => Some(EScriptInstrumentationType::Event),
            0x04 => Some(EScriptInstrumentationType::InlineEvent),
            0x05 => Some(EScriptInstrumentationType::ResumeEvent),
            0x06 => Some(EScriptInstrumentationType::PureNodeEntry),
            0x07 => Some(EScriptInstrumentationType::NodeDebugSite),
            0x08 => Some(EScriptInstrumentationType::NodeEntry),
            0x09 => Some(EScriptInstrumentationType::NodeExit),
            0x0A => Some(EScriptInstrumentationType::PushState),
            0x0B => Some(EScriptInstrumentationType::RestoreState),
            0x0C => Some(EScriptInstrumentationType::ResetState),
            0x0D => Some(EScriptInstrumentationType::SuspendState),
            0x0E => Some(EScriptInstrumentationType::PopState),
            0x0F => Some(EScriptInstrumentationType::TunnelEndOfThread),
            0x10 => Some(EScriptInstrumentationType::Stop),
            _ => None,
        }
    }
}

/// Kismet text literal type
#[derive(Debug, Clone, Copy, PartialEq, Eq, Hash, Structural)]
pub enum EBlueprintTextLiteralType {
    /// Text is an empty string. The bytecode contains no strings, and you should use FText::GetEmpty() to initialize the FText instance.
    Empty,
    /// Text is localized. The bytecode will contain three strings - source, key, and namespace - and should be loaded via FInternationalization
    LocalizedText,
    /// Text is culture invariant. The bytecode will contain one string, and you should use FText::AsCultureInvariant to initialize the FText instance.
    InvariantText,
    /// Text is a literal FString. The bytecode will contain one string, and you should use FText::FromString to initialize the FText instance.
    LiteralString,
    /// Text is from a string table. The bytecode will contain an object pointer (not used) and two strings - the table ID, and key - and should be found via FText::FromStringTable
    StringTableEntry,
}

impl EBlueprintTextLiteralType {
    /// The byte of the value.
    pub open spec fn spec_value(self) -> u8 {
        match self {
            EBlueprintTextLiteralType::Empty => 0x00u8,
            EBlueprintTextLiteralType::LocalizedText => 0x01u8,
            EBlueprintTextLiteralType::InvariantText => 0x02u8,
            EBlueprintTextLiteralType::LiteralString => 0x03u8,
            EBlueprintTextLiteralType::StringTableEntry => 0x04u8,
        }
    }

    /// The byte of the value.
    pub fn value(self) -> (r: u8)
        ensures r == self.spec_value(),
    {
        match self {
            EBlueprintTextLiteralType::Empty => 0x00,
            EBlueprintTextLiteralType::LocalizedText => 0x01,
            EBlueprintTextLiteralType::InvariantText => 0x02,
            EBlueprintTextLiteralType::LiteralString => 0x03,
            EBlueprintTextLiteralType::StringTableEntry => 0x04,
        }
    }

    /// The value of a byte, where it names one.
    pub open spec fn spec_from_u8(v: u8) -> Option<Self> {
        if v == 0x00 { Some(EBlueprintTextLiteralType::Empty) }
        else if v == 0x01 { Some(EBlueprintTextLiteralType::LocalizedText) }
        else if v == 0x02 { Some(EBlueprintTextLiteralType::InvariantText) }
        else if v == 0x03 { Some(EBlueprintTextLiteralType::LiteralString) }
        else if v == 0x04 { Some(EBlueprintTextLiteralType::StringTableEntry) }
        else { None }
    }

    /// The value of a byte, where it names one.
    pub fn try_from_u8(v: u8) -> (r: Option<Self>)
        ensures r == Self::spec_from_u8(v),
    {
        match v {
            0x00 => Some(EBlueprintTextLiteralType::Empty),
            0x01 => Some(EBlueprintTextLiteralType::LocalizedText),
            0x02 => Some(EBlueprintTextLiteralType::InvariantText),
            0x03 => Some(EBlueprintTextLiteralType::LiteralString),
            0x04 => Some(EBlueprintTextLiteralType::StringTableEntry),
            _ => None,
        }
    }
}

} // verus!
