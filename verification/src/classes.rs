//! The data model of a class file: the constant pool and its indices, the
//! attributes with their nested records, and the lookup that turns a pool
//! index into a pool entry.
//!
//! Types that own text or sequences come with a view that replaces `String`
//! by `Seq<char>` and `Vec` by `Seq`; contracts are stated over those views.
//! Types made of integers and indices alone are their own view.

use vstd::prelude::*;

verus! {

/// A 1-based key into the constant pool. Index 0 never denotes an entry.
#[derive(PartialEq, Eq, Debug)]
pub struct ConstantIndex(pub u16);

/// A key into the bootstrap-method table of a class.
#[derive(PartialEq, Eq, Debug)]
pub struct MethodIndex(pub u16);

/// A method handle: one of nine reference kinds, each wrapping the index of
/// the member it refers to.
#[derive(PartialEq, Eq, Debug)]
pub enum MethodHandle {
    GetField(ConstantIndex),
    GetStatic(ConstantIndex),
    PutField(ConstantIndex),
    PutStatic(ConstantIndex),
    InvokeVirtual(ConstantIndex),
    InvokeStatic(ConstantIndex),
    InvokeSpecial(ConstantIndex),
    NewInvokeSpecial(ConstantIndex),
    InvokeInterface(ConstantIndex),
}

/// One entry of the constant pool.
///
/// `Float` and `Double` hold the raw IEEE-754 bit pattern that the file
/// carries, so that every NaN payload survives decoding unchanged.
/// `Dummy` fills the second slot of a `Long` or `Double`.
#[derive(PartialEq, Debug)]
pub enum Constant {
    Utf8(String),
    Integer(u32),
    Float(u32),
    Long(u64),
    Double(u64),
    ClassRef(ConstantIndex),
    StringRef(ConstantIndex),
    FieldRef { class: ConstantIndex, name_and_type: ConstantIndex },
    MethodRef { class: ConstantIndex, name_and_type: ConstantIndex },
    InterfaceMethodRef { class: ConstantIndex, name_and_type: ConstantIndex },
    NameAndTypeRef { name: ConstantIndex, descriptor: ConstantIndex },
    MethodHandleRef(MethodHandle),
    MethodType(ConstantIndex),
    InvokeDynamicInfo { bootstrap_method_attr: MethodIndex, name_and_type: ConstantIndex },
    Dummy,
}

/// The mathematical value of a [`Constant`].
pub enum ConstantView {
    Utf8(Seq<char>),
    Integer(u32),
    Float(u32),
    Long(u64),
    Double(u64),
    ClassRef(ConstantIndex),
    StringRef(ConstantIndex),
    FieldRef { class: ConstantIndex, name_and_type: ConstantIndex },
    MethodRef { class: ConstantIndex, name_and_type: ConstantIndex },
    InterfaceMethodRef { class: ConstantIndex, name_and_type: ConstantIndex },
    NameAndTypeRef { name: ConstantIndex, descriptor: ConstantIndex },
    MethodHandleRef(MethodHandle),
    MethodType(ConstantIndex),
    InvokeDynamicInfo { bootstrap_method_attr: MethodIndex, name_and_type: ConstantIndex },
    Dummy,
}

impl View for Constant {
    type V = ConstantView;

    open spec fn view(&self) -> ConstantView {
        match *self {
            Constant::Utf8(text) => ConstantView::Utf8(text@),
            Constant::Integer(bits) => ConstantView::Integer(bits),
            Constant::Float(bits) => ConstantView::Float(bits),
            Constant::Long(bits) => ConstantView::Long(bits),
            Constant::Double(bits) => ConstantView::Double(bits),
            Constant::ClassRef(name) => ConstantView::ClassRef(name),
            Constant::StringRef(text) => ConstantView::StringRef(text),
            Constant::FieldRef { class, name_and_type } => ConstantView::FieldRef {
                class,
                name_and_type,
            },
            Constant::MethodRef { class, name_and_type } => ConstantView::MethodRef {
                class,
                name_and_type,
            },
            Constant::InterfaceMethodRef {
                class,
                name_and_type,
            } => ConstantView::InterfaceMethodRef { class, name_and_type },
            Constant::NameAndTypeRef { name, descriptor } => ConstantView::NameAndTypeRef {
                name,
                descriptor,
            },
            Constant::MethodHandleRef(handle) => ConstantView::MethodHandleRef(handle),
            Constant::MethodType(descriptor) => ConstantView::MethodType(descriptor),
            Constant::InvokeDynamicInfo {
                bootstrap_method_attr,
                name_and_type,
            } => ConstantView::InvokeDynamicInfo { bootstrap_method_attr, name_and_type },
            Constant::Dummy => ConstantView::Dummy,
        }
    }
}

/// The tag byte under which each kind of entry is stored; the placeholder
/// has none, because it never appears in a file.
pub open spec fn tag_of(constant: ConstantView) -> Option<u8> {
    match constant {
        ConstantView::Utf8(_) => Some(1u8),
        ConstantView::Integer(_) => Some(3u8),
        ConstantView::Float(_) => Some(4u8),
        ConstantView::Long(_) => Some(5u8),
        ConstantView::Double(_) => Some(6u8),
        ConstantView::ClassRef(_) => Some(7u8),
        ConstantView::StringRef(_) => Some(8u8),
        ConstantView::FieldRef { .. } => Some(9u8),
        ConstantView::MethodRef { .. } => Some(10u8),
        ConstantView::InterfaceMethodRef { .. } => Some(11u8),
        ConstantView::NameAndTypeRef { .. } => Some(12u8),
        ConstantView::MethodHandleRef(_) => Some(15u8),
        ConstantView::MethodType(_) => Some(16u8),
        ConstantView::InvokeDynamicInfo { .. } => Some(18u8),
        ConstantView::Dummy => None,
    }
}

impl View for ConstantIndex {
    type V = ConstantIndex;

    open spec fn view(&self) -> ConstantIndex {
        *self
    }
}

impl View for MethodIndex {
    type V = MethodIndex;

    open spec fn view(&self) -> MethodIndex {
        *self
    }
}

impl Clone for ConstantIndex {
    fn clone(&self) -> (copy: ConstantIndex)
        ensures
            copy == *self,
    {
        ConstantIndex(self.0)
    }
}

impl Clone for MethodIndex {
    fn clone(&self) -> (copy: MethodIndex)
        ensures
            copy == *self,
    {
        MethodIndex(self.0)
    }
}

impl Clone for MethodHandle {
    fn clone(&self) -> (copy: MethodHandle)
        ensures
            copy == *self,
    {
        match self {
            MethodHandle::GetField(index) => MethodHandle::GetField(index.clone()),
            MethodHandle::GetStatic(index) => MethodHandle::GetStatic(index.clone()),
            MethodHandle::PutField(index) => MethodHandle::PutField(index.clone()),
            MethodHandle::PutStatic(index) => MethodHandle::PutStatic(index.clone()),
            MethodHandle::InvokeVirtual(index) => MethodHandle::InvokeVirtual(index.clone()),
            MethodHandle::InvokeStatic(index) => MethodHandle::InvokeStatic(index.clone()),
            MethodHandle::InvokeSpecial(index) => MethodHandle::InvokeSpecial(index.clone()),
            MethodHandle::NewInvokeSpecial(index) => MethodHandle::NewInvokeSpecial(index.clone()),
            MethodHandle::InvokeInterface(index) => MethodHandle::InvokeInterface(index.clone()),
        }
    }
}

impl Constant {
    /// The tag byte of this entry's encoding, or `None` for the placeholder.
    pub fn get_tag(self) -> (tag: Option<u8>)
        ensures
            tag == tag_of(self@),
    {
        match self {
            Constant::Utf8(_) => Some(1),
            Constant::Integer(_) => Some(3),
            Constant::Float(_) => Some(4),
            Constant::Long(_) => Some(5),
            Constant::Double(_) => Some(6),
            Constant::ClassRef(_) => Some(7),
            Constant::StringRef(_) => Some(8),
            Constant::FieldRef { .. } => Some(9),
            Constant::MethodRef { .. } => Some(10),
            Constant::InterfaceMethodRef { .. } => Some(11),
            Constant::NameAndTypeRef { .. } => Some(12),
            Constant::MethodHandleRef(_) => Some(15),
            Constant::MethodType(_) => Some(16),
            Constant::InvokeDynamicInfo { .. } => Some(18),
            Constant::Dummy => None,
        }
    }
}

impl Clone for Constant {
    fn clone(&self) -> (copy: Constant)
        ensures
            copy@ == self@,
    {
        match self {
            Constant::Utf8(text) => Constant::Utf8(text.clone()),
            Constant::Integer(bits) => Constant::Integer(*bits),
            Constant::Float(bits) => Constant::Float(*bits),
            Constant::Long(bits) => Constant::Long(*bits),
            Constant::Double(bits) => Constant::Double(*bits),
            Constant::ClassRef(name) => Constant::ClassRef(name.clone()),
            Constant::StringRef(text) => Constant::StringRef(text.clone()),
            Constant::FieldRef { class, name_and_type } => Constant::FieldRef {
                class: class.clone(),
                name_and_type: name_and_type.clone(),
            },
            Constant::MethodRef { class, name_and_type } => Constant::MethodRef {
                class: class.clone(),
                name_and_type: name_and_type.clone(),
            },
            Constant::InterfaceMethodRef { class, name_and_type } => Constant::InterfaceMethodRef {
                class: class.clone(),
                name_and_type: name_and_type.clone(),
            },
            Constant::NameAndTypeRef { name, descriptor } => Constant::NameAndTypeRef {
                name: name.clone(),
                descriptor: descriptor.clone(),
            },
            Constant::MethodHandleRef(handle) => Constant::MethodHandleRef(handle.clone()),
            Constant::MethodType(descriptor) => Constant::MethodType(descriptor.clone()),
            Constant::InvokeDynamicInfo {
                bootstrap_method_attr,
                name_and_type,
            } => Constant::InvokeDynamicInfo {
                bootstrap_method_attr: bootstrap_method_attr.clone(),
                name_and_type: name_and_type.clone(),
            },
            Constant::Dummy => Constant::Dummy,
        }
    }
}

/// The values of a pool's entries, slot by slot.
pub open spec fn pool_view(pool: &Vec<Constant>) -> Seq<ConstantView> {
    Seq::new(pool@.len(), |slot: int| pool@[slot]@)
}

/// Why a pool index does not lead to an entry.
#[derive(Debug, PartialEq, Eq)]
pub enum ConstantLookupError {
    OutOfRange(u16),
    ZeroIndex,
    IndexInsideDoubleWidthConstant(u16),
}

impl ConstantLookupError {
    /// A short account of the failure, without the index.
    pub open spec fn description_text(self) -> Seq<char> {
        match self {
            ConstantLookupError::OutOfRange(_) => "Constant index out of range"@,
            ConstantLookupError::ZeroIndex => "Constant index 0 is invalid in this context"@,
            ConstantLookupError::IndexInsideDoubleWidthConstant(
                _,
            ) => "Constant index lies inside a double-width value"@,
        }
    }

    /// A short account of the failure, without the index.
    pub fn description(&self) -> (text: &'static str)
        ensures
            text@ == self.description_text(),
    {
        match *self {
            ConstantLookupError::OutOfRange(_) => "Constant index out of range",
            ConstantLookupError::ZeroIndex => "Constant index 0 is invalid in this context",
            ConstantLookupError::IndexInsideDoubleWidthConstant(
                _,
            ) => "Constant index lies inside a double-width value",
        }
    }
}

/// What an index denotes in a pool: the entry in slot `index - 1`, unless the
/// index is zero, lies past the last slot, or lands on the placeholder that
/// follows a `Long` or `Double`.
pub open spec fn resolve(index: u16, pool: Seq<ConstantView>) -> Result<
    ConstantView,
    ConstantLookupError,
> {
    if index == 0 {
        Err(ConstantLookupError::ZeroIndex)
    } else if pool.len() < index {
        Err(ConstantLookupError::OutOfRange(index))
    } else if pool[index - 1] is Dummy {
        Err(ConstantLookupError::IndexInsideDoubleWidthConstant(index))
    } else {
        Ok(pool[index - 1])
    }
}

/// Whether a constant takes up two pool slots.
pub open spec fn is_double_width(constant: ConstantView) -> bool {
    constant is Long || constant is Double
}

/// The pool invariant on double-width entries: each `Long` and `Double` is
/// followed by a slot that holds the placeholder.
pub open spec fn double_width_slots_padded(pool: Seq<ConstantView>) -> bool {
    forall|slot: int|
        0 <= slot < pool.len() && is_double_width(#[trigger] pool[slot]) ==> slot + 1 < pool.len()
            && pool[slot + 1] is Dummy
}

impl ConstantIndex {
    /// Resolves this index against `constant_pool`.
    ///
    /// On success the entry handed out is the one stored in slot
    /// `index - 1`; each failure comes exactly when [`resolve`] says so.
    pub fn lookup(self, constant_pool: &Vec<Constant>) -> (found: Result<
        &Constant,
        ConstantLookupError,
    >)
        ensures
            match found {
                Ok(constant) => {
                    &&& 1 <= self.0 <= constant_pool@.len()
                    &&& *constant == constant_pool@[self.0 - 1]
                    &&& resolve(self.0, pool_view(constant_pool)) == Ok::<
                        ConstantView,
                        ConstantLookupError,
                    >(constant@)
                },
                Err(error) => resolve(self.0, pool_view(constant_pool)) == Err::<
                    ConstantView,
                    ConstantLookupError,
                >(error),
            },
    {
        if self.0 == 0 {
            return Err(ConstantLookupError::ZeroIndex);
        } else if constant_pool.len() < self.0 as usize {
            return Err(ConstantLookupError::OutOfRange(self.0));
        }
        let constant = &constant_pool[(self.0 - 1) as usize];
        match *constant {
            Constant::Dummy => Err(ConstantLookupError::IndexInsideDoubleWidthConstant(self.0)),
            _ => Ok(constant),
        }
    }
}


/// A kind of value on the operand stack or in a local variable, as the
/// bytecode verifier sees it.
#[derive(PartialEq, Eq, Debug)]
pub enum VerificationType {
    Top,
    Integer,
    Float,
    Long,
    Double,
    Null,
    UninitializedThis,
    /// An instance of the class named by the pool entry.
    Object(ConstantIndex),
    /// An object that the `new` instruction at this bytecode offset has
    /// allocated and no constructor has initialised yet.
    Uninitialized(u16),
}

impl View for VerificationType {
    type V = VerificationType;

    open spec fn view(&self) -> VerificationType {
        *self
    }
}

/// One row of a Code attribute's exception table: the range of program
/// counters it guards, where its handler starts, and the class it catches.
#[derive(PartialEq, Eq, Debug)]
pub struct ExceptionTableRow {
    pub start_pc: u16,
    pub end_pc: u16,
    pub handler_pc: u16,
    pub catch_type: ConstantIndex,
}

impl View for ExceptionTableRow {
    type V = ExceptionTableRow;

    open spec fn view(&self) -> ExceptionTableRow {
        *self
    }
}

/// One frame of a stack-map table: how the verifier's picture of locals and
/// operand stack changes at a bytecode offset.
#[derive(PartialEq, Eq, Debug)]
pub enum StackMapFrame {
    SameFrame { offset_delta: u8 },
    SameLocalsOneStackItemFrame { offset_delta: u8, stack_item: VerificationType },
    SameLocalsOneStackItemFrameExtended { offset_delta: u16, stack_item: VerificationType },
    ChopFrame { offset_delta: u16, num_absent_locals: u8 },
    SameFrameExtended { offset_delta: u16 },
    AppendFrame { offset_delta: u16, new_locals: Vec<VerificationType> },
    FullFrame {
        offset_delta: u16,
        locals: Vec<VerificationType>,
        stack_items: Vec<VerificationType>,
    },
}

/// The mathematical value of a [`StackMapFrame`].
pub enum StackMapFrameView {
    SameFrame { offset_delta: u8 },
    SameLocalsOneStackItemFrame { offset_delta: u8, stack_item: VerificationType },
    SameLocalsOneStackItemFrameExtended { offset_delta: u16, stack_item: VerificationType },
    ChopFrame { offset_delta: u16, num_absent_locals: u8 },
    SameFrameExtended { offset_delta: u16 },
    AppendFrame { offset_delta: u16, new_locals: Seq<VerificationType> },
    FullFrame {
        offset_delta: u16,
        locals: Seq<VerificationType>,
        stack_items: Seq<VerificationType>,
    },
}

impl View for StackMapFrame {
    type V = StackMapFrameView;

    open spec fn view(&self) -> StackMapFrameView {
        match *self {
            StackMapFrame::SameFrame { offset_delta } => StackMapFrameView::SameFrame {
                offset_delta,
            },
            StackMapFrame::SameLocalsOneStackItemFrame {
                offset_delta,
                stack_item,
            } => StackMapFrameView::SameLocalsOneStackItemFrame { offset_delta, stack_item },
            StackMapFrame::SameLocalsOneStackItemFrameExtended {
                offset_delta,
                stack_item,
            } => StackMapFrameView::SameLocalsOneStackItemFrameExtended {
                offset_delta,
                stack_item,
            },
            StackMapFrame::ChopFrame {
                offset_delta,
                num_absent_locals,
            } => StackMapFrameView::ChopFrame { offset_delta, num_absent_locals },
            StackMapFrame::SameFrameExtended {
                offset_delta,
            } => StackMapFrameView::SameFrameExtended { offset_delta },
            StackMapFrame::AppendFrame { offset_delta, new_locals } => StackMapFrameView::AppendFrame {
                offset_delta,
                new_locals: views(new_locals),
            },
            StackMapFrame::FullFrame {
                offset_delta,
                locals,
                stack_items,
            } => StackMapFrameView::FullFrame {
                offset_delta,
                locals: views(locals),
                stack_items: views(stack_items),
            },
        }
    }
}

/// Access and property flags of a class, as a set of bits.
#[derive(PartialEq, Eq, Clone, Copy, Debug)]
pub struct ClassFlags {
    pub bits: u16,
}

pub const CLASS_PUBLIC: u16 = 0x0001;

pub const CLASS_FINAL: u16 = 0x0010;

pub const CLASS_SUPER: u16 = 0x0020;

pub const CLASS_INTERFACE: u16 = 0x0200;

pub const CLASS_ABSTRACT: u16 = 0x0040;

pub const CLASS_SYNTHETIC: u16 = 0x1000;

pub const CLASS_ANNOTATION: u16 = 0x2000;

pub const CLASS_ENUM: u16 = 0x4000;

/// Access and property flags of a field, as a set of bits.
#[derive(PartialEq, Eq, Clone, Copy, Debug)]
pub struct FieldFlags {
    pub bits: u16,
}

pub const FIELD_PUBLIC: u16 = 0x0001;

pub const FIELD_PRIVATE: u16 = 0x0002;

pub const FIELD_PROTECTED: u16 = 0x0004;

pub const FIELD_STATIC: u16 = 0x0008;

pub const FIELD_FINAL: u16 = 0x0010;

pub const FIELD_VOLATILE: u16 = 0x0040;

pub const FIELD_TRANSIENT: u16 = 0x0080;

pub const FIELD_SYNTHETIC: u16 = 0x1000;

pub const FIELD_ENUM: u16 = 0x4000;

/// Access and property flags of a method, as a set of bits.
#[derive(PartialEq, Eq, Clone, Copy, Debug)]
pub struct MethodFlags {
    pub bits: u16,
}

pub const METHOD_PUBLIC: u16 = 0x0001;

pub const METHOD_PRIVATE: u16 = 0x0002;

pub const METHOD_PROTECTED: u16 = 0x0004;

pub const METHOD_STATIC: u16 = 0x0008;

pub const METHOD_FINAL: u16 = 0x0010;

pub const METHOD_SYNCHRONIZED: u16 = 0x0020;

pub const METHOD_BRIDGE: u16 = 0x0040;

pub const METHOD_VARARGS: u16 = 0x0080;

pub const METHOD_NATIVE: u16 = 0x0100;

pub const METHOD_ABSTRACT: u16 = 0x0400;

pub const METHOD_STRICT: u16 = 0x0800;

pub const METHOD_SYNTHETIC: u16 = 0x1000;

/// Access and property flags of a nested class, as a set of bits.
#[derive(PartialEq, Eq, Clone, Copy, Debug)]
pub struct InnerClassFlags {
    pub bits: u16,
}

pub const INNER_CLASS_PUBLIC: u16 = 0x0001;

pub const INNER_CLASS_PRIVATE: u16 = 0x0002;

pub const INNER_CLASS_PROTECTED: u16 = 0x0004;

pub const INNER_CLASS_STATIC: u16 = 0x0008;

pub const INNER_CLASS_FINAL: u16 = 0x0010;

pub const INNER_CLASS_INTERFACE: u16 = 0x0200;

pub const INNER_CLASS_ABSTRACT: u16 = 0x0040;

pub const INNER_CLASS_SYNTHETIC: u16 = 0x1000;

pub const INNER_CLASS_ANNOTATION: u16 = 0x2000;

pub const INNER_CLASS_ENUM: u16 = 0x4000;

/// One row of an InnerClasses attribute.
#[derive(PartialEq, Eq, Debug)]
pub struct InnerClassInfo {
    pub inner_class: ConstantIndex,
    pub outer_class: ConstantIndex,
    pub inner_class_name: ConstantIndex,
    pub flags: InnerClassFlags,
}

/// One row of a LocalVariableTable attribute.
#[derive(PartialEq, Eq, Debug)]
pub struct LocalVariable {
    pub start_pc: u16,
    pub length: u16,
    pub name: ConstantIndex,
    pub descriptor: ConstantIndex,
    pub index: u16,
}

/// One row of a LocalVariableTypeTable attribute.
#[derive(PartialEq, Eq, Debug)]
pub struct LocalVariableType {
    pub start_pc: u16,
    pub length: u16,
    pub name: ConstantIndex,
    pub signature: ConstantIndex,
    pub index: u16,
}

/// An annotation: its type and its named element values.
#[derive(PartialEq, Eq, Debug)]
pub struct Annotation {
    pub type_index: ConstantIndex,
    pub indexes_with_values: Vec<(ConstantIndex, ElementValue)>,
}

/// The value of one annotation element.
#[derive(PartialEq, Eq, Debug)]
pub enum ElementValue {
    Byte(ConstantIndex),
    Char(ConstantIndex),
    Double(ConstantIndex),
    Float(ConstantIndex),
    Integer(ConstantIndex),
    Long(ConstantIndex),
    Short(ConstantIndex),
    Boolean(ConstantIndex),
    String(ConstantIndex),
    Enum { enum_type: ConstantIndex, enum_value: ConstantIndex },
    Class(ConstantIndex),
    Annotation(Annotation),
    Array(Vec<ElementValue>),
}

/// The annotations of one formal parameter.
#[derive(PartialEq, Eq, Debug)]
pub struct ParameterAnnotations(pub Vec<Annotation>);

/// One row of a BootstrapMethods attribute.
#[derive(PartialEq, Eq, Debug)]
pub struct BootstrapMethod {
    pub method: ConstantIndex,
    pub arguments: Vec<ConstantIndex>,
}

/// The mathematical value of an [`Annotation`].
pub struct AnnotationView {
    pub type_index: ConstantIndex,
    pub indexes_with_values: Seq<(ConstantIndex, ElementValueView)>,
}

/// The mathematical value of an [`ElementValue`].
pub enum ElementValueView {
    Byte(ConstantIndex),
    Char(ConstantIndex),
    Double(ConstantIndex),
    Float(ConstantIndex),
    Integer(ConstantIndex),
    Long(ConstantIndex),
    Short(ConstantIndex),
    Boolean(ConstantIndex),
    String(ConstantIndex),
    Enum { enum_type: ConstantIndex, enum_value: ConstantIndex },
    Class(ConstantIndex),
    Annotation(AnnotationView),
    Array(Seq<ElementValueView>),
}

/// The mathematical value of a [`ParameterAnnotations`].
pub struct ParameterAnnotationsView(pub Seq<AnnotationView>);

/// The mathematical value of a [`BootstrapMethod`].
pub struct BootstrapMethodView {
    pub method: ConstantIndex,
    pub arguments: Seq<ConstantIndex>,
}

impl View for Annotation {
    type V = AnnotationView;

    open spec fn view(&self) -> AnnotationView
        decreases self,
    {
        AnnotationView {
            type_index: self.type_index,
            indexes_with_values: Seq::new(
                self.indexes_with_values@.len(),
                |at: int|
                    if 0 <= at < self.indexes_with_values.len() {
                        (self.indexes_with_values[at].0, self.indexes_with_values[at].1.view())
                    } else {
                        arbitrary()
                    },
            ),
        }
    }
}

impl View for ElementValue {
    type V = ElementValueView;

    open spec fn view(&self) -> ElementValueView
        decreases self,
    {
        match *self {
            ElementValue::Byte(value) => ElementValueView::Byte(value),
            ElementValue::Char(value) => ElementValueView::Char(value),
            ElementValue::Double(value) => ElementValueView::Double(value),
            ElementValue::Float(value) => ElementValueView::Float(value),
            ElementValue::Integer(value) => ElementValueView::Integer(value),
            ElementValue::Long(value) => ElementValueView::Long(value),
            ElementValue::Short(value) => ElementValueView::Short(value),
            ElementValue::Boolean(value) => ElementValueView::Boolean(value),
            ElementValue::String(value) => ElementValueView::String(value),
            ElementValue::Enum { enum_type, enum_value } => ElementValueView::Enum {
                enum_type,
                enum_value,
            },
            ElementValue::Class(value) => ElementValueView::Class(value),
            ElementValue::Annotation(annotation) => ElementValueView::Annotation(
                annotation.view(),
            ),
            ElementValue::Array(values) => ElementValueView::Array(
                Seq::new(
                    values@.len(),
                    |at: int|
                        if 0 <= at < values.len() {
                            values[at].view()
                        } else {
                            arbitrary()
                        },
                ),
            ),
        }
    }
}

impl View for ParameterAnnotations {
    type V = ParameterAnnotationsView;

    open spec fn view(&self) -> ParameterAnnotationsView {
        ParameterAnnotationsView(Seq::new(self.0@.len(), |at: int| self.0@[at]@))
    }
}

impl View for BootstrapMethod {
    type V = BootstrapMethodView;

    open spec fn view(&self) -> BootstrapMethodView {
        BootstrapMethodView { method: self.method, arguments: self.arguments@ }
    }
}


/// The values of a sequence of records, item by item.
pub open spec fn views<T: View>(items: Vec<T>) -> Seq<T::V> {
    Seq::new(items@.len(), |at: int| items@[at]@)
}

/// A named record attached to a class, a field, a method or a Code body.
///
/// Every variant keeps the pool index of the name it was found under.
#[derive(PartialEq, Eq, Debug)]
pub enum Attribute {
    ConstantValue { attribute_name: ConstantIndex, constant_value: ConstantIndex },
    Code {
        attribute_name: ConstantIndex,
        max_stack: u16,
        max_locals: u16,
        code: Vec<u8>,
        exception_table: Vec<ExceptionTableRow>,
        attributes: Vec<Attribute>,
    },
    StackMapTable { attribute_name: ConstantIndex, entries: Vec<StackMapFrame> },
    Exceptions { attribute_name: ConstantIndex, index_table: Vec<ConstantIndex> },
    InnerClasses { attribute_name: ConstantIndex, classes: Vec<InnerClassInfo> },
    EnclosingMethod { attribute_name: ConstantIndex, class: ConstantIndex, method: ConstantIndex },
    Synthetic { attribute_name: ConstantIndex },
    Signature { attribute_name: ConstantIndex, signature: ConstantIndex },
    SourceFile { attribute_name: ConstantIndex, source_file: ConstantIndex },
    SourceDebug { attribute_name: ConstantIndex, debug_extension: Vec<u8> },
    LineNumberTable { attribute_name: ConstantIndex, table: Vec<(u16, u16)> },
    LocalVariableTable { attribute_name: ConstantIndex, variables: Vec<LocalVariable> },
    LocalVariableTypeTable {
        attribute_name: ConstantIndex,
        variable_types: Vec<LocalVariableType>,
    },
    Deprecated { attribute_name: ConstantIndex },
    RuntimeVisibleAnnotations { attribute_name: ConstantIndex, annotations: Vec<Annotation> },
    RuntimeInvisibleAnnotations { attribute_name: ConstantIndex, annotations: Vec<Annotation> },
    RuntimeVisibleParameterAnnotations {
        attribute_name: ConstantIndex,
        annotations_by_param_index: Vec<ParameterAnnotations>,
    },
    RuntimeInvisibleParameterAnnotations {
        attribute_name: ConstantIndex,
        annotations_by_param_index: Vec<ParameterAnnotations>,
    },
    AnnotationDefault { attribute_name: ConstantIndex, value: ElementValue },
    BootstrapMethods { attribute_name: ConstantIndex, methods: Vec<BootstrapMethod> },
}

/// The mathematical value of an [`Attribute`].
pub enum AttributeView {
    ConstantValue { attribute_name: ConstantIndex, constant_value: ConstantIndex },
    Code {
        attribute_name: ConstantIndex,
        max_stack: u16,
        max_locals: u16,
        code: Seq<u8>,
        exception_table: Seq<ExceptionTableRow>,
        attributes: Seq<AttributeView>,
    },
    StackMapTable { attribute_name: ConstantIndex, entries: Seq<StackMapFrameView> },
    Exceptions { attribute_name: ConstantIndex, index_table: Seq<ConstantIndex> },
    InnerClasses { attribute_name: ConstantIndex, classes: Seq<InnerClassInfo> },
    EnclosingMethod { attribute_name: ConstantIndex, class: ConstantIndex, method: ConstantIndex },
    Synthetic { attribute_name: ConstantIndex },
    Signature { attribute_name: ConstantIndex, signature: ConstantIndex },
    SourceFile { attribute_name: ConstantIndex, source_file: ConstantIndex },
    SourceDebug { attribute_name: ConstantIndex, debug_extension: Seq<u8> },
    LineNumberTable { attribute_name: ConstantIndex, table: Seq<(u16, u16)> },
    LocalVariableTable { attribute_name: ConstantIndex, variables: Seq<LocalVariable> },
    LocalVariableTypeTable {
        attribute_name: ConstantIndex,
        variable_types: Seq<LocalVariableType>,
    },
    Deprecated { attribute_name: ConstantIndex },
    RuntimeVisibleAnnotations { attribute_name: ConstantIndex, annotations: Seq<AnnotationView> },
    RuntimeInvisibleAnnotations {
        attribute_name: ConstantIndex,
        annotations: Seq<AnnotationView>,
    },
    RuntimeVisibleParameterAnnotations {
        attribute_name: ConstantIndex,
        annotations_by_param_index: Seq<ParameterAnnotationsView>,
    },
    RuntimeInvisibleParameterAnnotations {
        attribute_name: ConstantIndex,
        annotations_by_param_index: Seq<ParameterAnnotationsView>,
    },
    AnnotationDefault { attribute_name: ConstantIndex, value: ElementValueView },
    BootstrapMethods { attribute_name: ConstantIndex, methods: Seq<BootstrapMethodView> },
}

/// The values of a sequence of attributes, item by item.
pub open spec fn attribute_views(attributes: Vec<Attribute>) -> Seq<AttributeView>
    decreases attributes,
{
    Seq::new(
        attributes@.len(),
        |at: int|
            if 0 <= at < attributes.len() {
                attributes[at].view()
            } else {
                arbitrary()
            },
    )
}

impl View for Attribute {
    type V = AttributeView;

    open spec fn view(&self) -> AttributeView
        decreases self,
    {
        match *self {
            Attribute::ConstantValue {
                attribute_name,
                constant_value,
            } => AttributeView::ConstantValue { attribute_name, constant_value },
            Attribute::Code {
                attribute_name,
                max_stack,
                max_locals,
                code,
                exception_table,
                attributes,
            } => AttributeView::Code {
                attribute_name,
                max_stack,
                max_locals,
                code: code@,
                exception_table: views(exception_table),
                attributes: attribute_views(attributes),
            },
            Attribute::StackMapTable { attribute_name, entries } => AttributeView::StackMapTable {
                attribute_name,
                entries: views(entries),
            },
            Attribute::Exceptions { attribute_name, index_table } => AttributeView::Exceptions {
                attribute_name,
                index_table: index_table@,
            },
            Attribute::InnerClasses { attribute_name, classes } => AttributeView::InnerClasses {
                attribute_name,
                classes: classes@,
            },
            Attribute::EnclosingMethod {
                attribute_name,
                class,
                method,
            } => AttributeView::EnclosingMethod { attribute_name, class, method },
            Attribute::Synthetic { attribute_name } => AttributeView::Synthetic { attribute_name },
            Attribute::Signature { attribute_name, signature } => AttributeView::Signature {
                attribute_name,
                signature,
            },
            Attribute::SourceFile { attribute_name, source_file } => AttributeView::SourceFile {
                attribute_name,
                source_file,
            },
            Attribute::SourceDebug {
                attribute_name,
                debug_extension,
            } => AttributeView::SourceDebug { attribute_name, debug_extension: debug_extension@ },
            Attribute::LineNumberTable { attribute_name, table } => AttributeView::LineNumberTable {
                attribute_name,
                table: table@,
            },
            Attribute::LocalVariableTable {
                attribute_name,
                variables,
            } => AttributeView::LocalVariableTable { attribute_name, variables: variables@ },
            Attribute::LocalVariableTypeTable {
                attribute_name,
                variable_types,
            } => AttributeView::LocalVariableTypeTable {
                attribute_name,
                variable_types: variable_types@,
            },
            Attribute::Deprecated { attribute_name } => AttributeView::Deprecated {
                attribute_name,
            },
            Attribute::RuntimeVisibleAnnotations {
                attribute_name,
                annotations,
            } => AttributeView::RuntimeVisibleAnnotations {
                attribute_name,
                annotations: views(annotations),
            },
            Attribute::RuntimeInvisibleAnnotations {
                attribute_name,
                annotations,
            } => AttributeView::RuntimeInvisibleAnnotations {
                attribute_name,
                annotations: views(annotations),
            },
            Attribute::RuntimeVisibleParameterAnnotations {
                attribute_name,
                annotations_by_param_index,
            } => AttributeView::RuntimeVisibleParameterAnnotations {
                attribute_name,
                annotations_by_param_index: views(annotations_by_param_index),
            },
            Attribute::RuntimeInvisibleParameterAnnotations {
                attribute_name,
                annotations_by_param_index,
            } => AttributeView::RuntimeInvisibleParameterAnnotations {
                attribute_name,
                annotations_by_param_index: views(annotations_by_param_index),
            },
            Attribute::AnnotationDefault {
                attribute_name,
                value,
            } => AttributeView::AnnotationDefault { attribute_name, value: value@ },
            Attribute::BootstrapMethods { attribute_name, methods } => AttributeView::BootstrapMethods {
                attribute_name,
                methods: views(methods),
            },
        }
    }
}

/// A field of a class.
#[derive(PartialEq, Eq, Debug)]
pub struct Field {
    pub flags: FieldFlags,
    pub name: ConstantIndex,
    pub descriptor: ConstantIndex,
    pub attributes: Vec<Attribute>,
}

/// The mathematical value of a [`Field`].
pub struct FieldView {
    pub flags: FieldFlags,
    pub name: ConstantIndex,
    pub descriptor: ConstantIndex,
    pub attributes: Seq<AttributeView>,
}

impl View for Field {
    type V = FieldView;

    open spec fn view(&self) -> FieldView {
        FieldView {
            flags: self.flags,
            name: self.name,
            descriptor: self.descriptor,
            attributes: attribute_views(self.attributes),
        }
    }
}

/// A method of a class.
#[derive(PartialEq, Eq, Debug)]
pub struct Method {
    pub flags: MethodFlags,
    pub name: ConstantIndex,
    pub descriptor: ConstantIndex,
    pub attributes: Vec<Attribute>,
}

/// The mathematical value of a [`Method`].
pub struct MethodView {
    pub flags: MethodFlags,
    pub name: ConstantIndex,
    pub descriptor: ConstantIndex,
    pub attributes: Seq<AttributeView>,
}

impl View for Method {
    type V = MethodView;

    open spec fn view(&self) -> MethodView {
        MethodView {
            flags: self.flags,
            name: self.name,
            descriptor: self.descriptor,
            attributes: attribute_views(self.attributes),
        }
    }
}

/// A whole class file, decoded.
#[derive(PartialEq, Debug)]
pub struct Class {
    pub minor_version: u16,
    pub major_version: u16,
    pub constants: Vec<Constant>,
    pub flags: ClassFlags,
    pub this_class: ConstantIndex,
    pub super_class: ConstantIndex,
    pub interfaces: Vec<ConstantIndex>,
    pub fields: Vec<Field>,
    pub methods: Vec<Method>,
    pub attributes: Vec<Attribute>,
}

/// The mathematical value of a [`Class`].
pub struct ClassView {
    pub minor_version: u16,
    pub major_version: u16,
    pub constants: Seq<ConstantView>,
    pub flags: ClassFlags,
    pub this_class: ConstantIndex,
    pub super_class: ConstantIndex,
    pub interfaces: Seq<ConstantIndex>,
    pub fields: Seq<FieldView>,
    pub methods: Seq<MethodView>,
    pub attributes: Seq<AttributeView>,
}

impl View for Class {
    type V = ClassView;

    open spec fn view(&self) -> ClassView {
        ClassView {
            minor_version: self.minor_version,
            major_version: self.major_version,
            constants: pool_view(&self.constants),
            flags: self.flags,
            this_class: self.this_class,
            super_class: self.super_class,
            interfaces: self.interfaces@,
            fields: views(self.fields),
            methods: views(self.methods),
            attributes: attribute_views(self.attributes),
        }
    }
}

} // verus!
