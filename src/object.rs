use vstd::prelude::*;
use crate::function::{BoundFunction, Function, NativeFunction};
use crate::value::{
    key_view, named, JsObject, KeyView, JsValue, PropertyDescriptor, PropertyKey,
};

verus! {

/// An own property of an object.
pub struct Property {
    pub key: PropertyKey,
    pub descriptor: PropertyDescriptor,
}

/// What an object is besides its properties.
pub enum ObjectData {
    Ordinary,
    Array(Vec<JsValue>),
    Function(Function),
    BoundFunction { function: BoundFunction, constructor: bool },
}

/// An object of the heap: its prototype, its own properties in the order they
/// were defined (a later definition of a key shadows an earlier one), and its
/// data.
pub struct Object {
    pub prototype: Option<JsObject>,
    pub properties: Vec<Property>,
    pub data: ObjectData,
}

/// The heap of objects and the intrinsic prototypes.
pub struct Context {
    pub objects: Vec<Object>,
    pub object_prototype: JsObject,
    pub function_prototype: JsObject,
}

/// The descriptor that `key` has among `props`: the last one defined.
pub open spec fn lookup(props: Seq<Property>, key: KeyView) -> Option<PropertyDescriptor>
    decreases props.len(),
{
    if props.len() == 0 {
        None
    } else if key_view(props.last().key) == key {
        Some(props.last().descriptor)
    } else {
        lookup(props.drop_last(), key)
    }
}

/// A new last property leaves the descriptors of all other keys as they were.
pub proof fn lemma_lookup_push(props: Seq<Property>, p: Property, k: KeyView)
    ensures
        lookup(props.push(p), k) == if key_view(p.key) == k {
            Some(p.descriptor)
        } else {
            lookup(props, k)
        },
{
    assert(props.push(p).drop_last() =~= props);
}

/// An object whose handles point into a heap of `len` objects, and whose
/// bound target, if any, comes before its own place `i`.
pub open spec fn object_wf(o: &Object, i: int, len: int) -> bool {
    &&& (o.prototype matches Some(p) ==> p.index < len)
    &&& (o.data matches ObjectData::BoundFunction { function, .. } ==> function.target_spec().index
        < i)
}

/// Whether the data is that of a callable.
pub open spec fn is_callable_data(d: &ObjectData) -> bool {
    d is Function || d is BoundFunction
}

/// Whether the data is that of a constructor.
pub open spec fn is_constructor_data(d: &ObjectData) -> bool {
    match d {
        ObjectData::Function(f) => crate::function::constructor_flag(f),
        ObjectData::BoundFunction { constructor, .. } => *constructor,
        _ => false,
    }
}

/// Whether `key` names the same property as `other`.
pub fn key_eq(key: &PropertyKey, other: &PropertyKey) -> (r: bool)
    ensures
        r == (key_view(*key) == key_view(*other)),
{
    match (key, other) {
        (PropertyKey::String(s), PropertyKey::String(t)) => s.eq(t),
        (PropertyKey::Index(i), PropertyKey::Index(j)) => *i == *j,
        (PropertyKey::Symbol(s), PropertyKey::Symbol(t)) => s.id == t.id,
        _ => false,
    }
}

/// The key `"length"` or `"name"` and the like.
pub fn string_key(s: &str) -> (r: PropertyKey)
    ensures
        key_view(r) == named(s@),
{
    PropertyKey::String(s.to_string())
}

impl Context {
    pub open spec fn wf(&self) -> bool {
        &&& self.object_prototype.index < self.objects.len()
        &&& self.function_prototype.index < self.objects.len()
        &&& forall|i: int|
            0 <= i < self.objects.len() ==> object_wf(#[trigger] &self.objects@[i], i, self.objects.len() as int)
    }

    /// Whether `o` is an object of this heap.
    pub open spec fn valid(&self, o: JsObject) -> bool {
        o.index < self.objects.len()
    }

    /// The own property `key` of `o`.
    pub open spec fn own_property(&self, o: JsObject, key: KeyView) -> Option<PropertyDescriptor> {
        lookup(self.objects@[o.index as int].properties@, key)
    }

    /// The data of `o`.
    pub open spec fn data(&self, o: JsObject) -> &ObjectData {
        &self.objects@[o.index as int].data
    }

    /// The callable that `v` is, if it is one.
    pub open spec fn callable(&self, v: JsValue) -> Option<JsObject> {
        match v {
            JsValue::Object(o) => if self.valid(o) && is_callable_data(self.data(o)) {
                Some(o)
            } else {
                None
            },
            _ => None,
        }
    }

    /// The property `key` seen from `o`: its own, or else that of its
    /// prototypes, visiting at most `fuel` objects.
    pub open spec fn find_property(&self, o: JsObject, key: KeyView, fuel: nat) -> Option<
        PropertyDescriptor,
    >
        decreases fuel,
    {
        if fuel == 0 || !self.valid(o) {
            None
        } else {
            match self.own_property(o, key) {
                Some(d) => Some(d),
                None => match self.objects@[o.index as int].prototype {
                    Some(p) => self.find_property(p, key, (fuel - 1) as nat),
                    None => None,
                },
            }
        }
    }

    /// `Get(o, key)` on data properties: `undefined` where no object of the
    /// prototype chain has the key.
    pub open spec fn get_spec(&self, o: JsObject, key: KeyView) -> JsValue {
        match self.find_property(o, key, self.objects.len() as nat) {
            Some(d) => d.value,
            None => JsValue::Undefined,
        }
    }

    /// A heap with the intrinsic `Object.prototype` and `Function.prototype`,
    /// without properties yet (see `BuiltInFunctionObject::init`).
    pub fn new() -> (r: Context)
        ensures
            r.wf(),
            r.objects@.len() == 2,
            r.object_prototype == (JsObject { index: 0 }),
            r.function_prototype == (JsObject { index: 1 }),
            r.objects@[0].prototype is None && r.objects@[0].properties@.len() == 0
                && r.objects@[0].data is Ordinary,
            r.objects@[1].prototype == Some(JsObject { index: 0 }) && r.objects@[1].properties@.len() == 0,
            r.data(JsObject { index: 1 }) matches ObjectData::Function(
                Function::Native { function: f, constructor: c },
            ) && *f == NativeFunction::FunctionPrototype && !*c,
    {
        let mut objects: Vec<Object> = Vec::new();
        objects.push(Object { prototype: None, properties: Vec::new(), data: ObjectData::Ordinary });
        let function_prototype = Object {
            prototype: Some(JsObject { index: 0 }),
            properties: Vec::new(),
            data: ObjectData::Function(
                Function::Native { function: NativeFunction::FunctionPrototype, constructor: false },
            ),
        };
        objects.push(function_prototype);
        Context { objects, object_prototype: JsObject { index: 0 }, function_prototype: JsObject { index: 1 } }
    }

    /// Tells whether the heap is well formed: every handle that an object
    /// holds points into the heap, and each bound wrapper comes after its
    /// target.
    pub fn is_well_formed(&self) -> (r: bool)
        ensures
            r == self.wf(),
    {
        let n = self.objects.len();
        if self.object_prototype.index >= n || self.function_prototype.index >= n {
            return false;
        }
        let mut i: usize = 0;
        while i < n
            invariant
                n == self.objects.len(),
                i <= n,
                self.object_prototype.index < n,
                self.function_prototype.index < n,
                forall|j: int| 0 <= j < i ==> object_wf(#[trigger] &self.objects@[j], j, n as int),
            decreases n - i,
        {
            let o = &self.objects[i];
            if let Some(p) = o.prototype {
                if p.index >= n {
                    return false;
                }
            }
            if let ObjectData::BoundFunction { function, .. } = &o.data {
                if function.target_function().index >= i {
                    return false;
                }
            }
            i = i + 1;
        }
        true
    }

    /// Adds `object` to the heap.
    pub fn allocate(&mut self, object: Object) -> (r: JsObject)
        requires
            old(self).wf(),
            object_wf(&object, old(self).objects.len() as int, old(self).objects.len() + 1),
        ensures
            final(self).wf(),
            final(self).objects@ == old(self).objects@.push(object),
            final(self).object_prototype == old(self).object_prototype,
            final(self).function_prototype == old(self).function_prototype,
            r.index == old(self).objects.len(),
    {
        let r = JsObject { index: self.objects.len() };
        self.objects.push(object);
        assert forall|i: int| 0 <= i < self.objects.len() implies object_wf(
            #[trigger] &self.objects@[i],
            i,
            self.objects.len() as int,
        ) by {
            if i < old(self).objects.len() {
                assert(object_wf(&old(self).objects@[i], i, old(self).objects.len() as int));
            }
        }
        r
    }

    /// Defines the own property `key` of `o` as `descriptor`.
    pub fn define_property(&mut self, o: JsObject, key: PropertyKey, descriptor: PropertyDescriptor)
        requires
            old(self).wf(),
            old(self).valid(o),
        ensures
            final(self).wf(),
            final(self).objects.len() == old(self).objects.len(),
            final(self).object_prototype == old(self).object_prototype,
            final(self).function_prototype == old(self).function_prototype,
            forall|i: int|
                0 <= i < old(self).objects.len() && i != o.index ==> #[trigger] final(self).objects@[i]
                    == old(self).objects@[i],
            final(self).objects@[o.index as int].prototype == old(self).objects@[o.index as int].prototype,
            final(self).objects@[o.index as int].data == old(self).objects@[o.index as int].data,
            final(self).objects@[o.index as int].properties@ == old(self).objects@[o.index as int].properties@.push(
                Property { key, descriptor },
            ),
            forall|k: KeyView|
                #[trigger] final(self).own_property(o, k) == if k == key_view(key) {
                    Some(descriptor)
                } else {
                    old(self).own_property(o, k)
                },
    {
        let ghost props = self.objects@[o.index as int].properties@;
        let ghost p = Property { key, descriptor };
        self.objects[o.index].properties.push(Property { key, descriptor });
        assert forall|k: KeyView| #[trigger] self.own_property(o, k) == if k == key_view(key) {
            Some(descriptor)
        } else {
            old(self).own_property(o, k)
        } by {
            lemma_lookup_push(props, p, k);
        }
        assert forall|i: int| 0 <= i < self.objects.len() implies object_wf(
            #[trigger] &self.objects@[i],
            i,
            self.objects.len() as int,
        ) by {
            assert(object_wf(&old(self).objects@[i], i, old(self).objects.len() as int));
        }
    }

    /// The own property `key` of `o`, if it has one.
    pub fn get_own_property(&self, o: JsObject, key: &PropertyKey) -> (r: Option<PropertyDescriptor>)
        requires
            self.valid(o),
        ensures
            r == self.own_property(o, key_view(*key)),
    {
        let props = &self.objects[o.index].properties;
        let mut i: usize = props.len();
        assert(props@ =~= props@.subrange(0, props@.len() as int));
        while i > 0
            invariant
                self.valid(o),
                i <= props@.len(),
                props == &self.objects@[o.index as int].properties,
                lookup(props@, key_view(*key)) == lookup(props@.subrange(0, i as int), key_view(*key)),
            decreases i,
        {
            if key_eq(&props[i - 1].key, key) {
                let d = &props[i - 1].descriptor;
                let r = PropertyDescriptor {
                    value: d.value.duplicate(),
                    writable: d.writable,
                    enumerable: d.enumerable,
                    configurable: d.configurable,
                };
                assert(props@.subrange(0, i as int).last() == props@[i - 1]);
                assert(r == props@[i - 1].descriptor);
                return Some(r);
            }
            assert(props@.subrange(0, i as int).drop_last() =~= props@.subrange(0, i - 1));
            i = i - 1;
        }
        None
    }

    /// `HasOwnProperty(o, key)`.
    pub fn has_own_property(&self, o: JsObject, key: &PropertyKey) -> (r: bool)
        requires
            self.valid(o),
        ensures
            r == self.own_property(o, key_view(*key)).is_some(),
    {
        self.get_own_property(o, key).is_some()
    }

    /// `Get(o, key)` on data properties, along the prototype chain.
    pub fn get(&self, o: JsObject, key: &PropertyKey) -> (r: JsValue)
        requires
            self.wf(),
            self.valid(o),
        ensures
            r == self.get_spec(o, key_view(*key)),
    {
        let n = self.objects.len();
        let mut cur = o;
        let mut fuel: usize = n;
        while fuel > 0
            invariant
                self.wf(),
                n == self.objects.len(),
                fuel <= n,
                self.valid(cur),
                self.find_property(o, key_view(*key), n as nat) == self.find_property(cur, key_view(*key), fuel as nat),
            decreases fuel,
        {
            match self.get_own_property(cur, key) {
                Some(d) => {
                    return d.value;
                },
                None => {
                    match self.objects[cur.index].prototype {
                        Some(p) => {
                            assert(object_wf(&self.objects@[cur.index as int], cur.index as int, n as int));
                            cur = p;
                            fuel = fuel - 1;
                        },
                        None => {
                            return JsValue::Undefined;
                        },
                    }
                },
            }
        }
        JsValue::Undefined
    }

    /// The callable that `v` is, if it is one.
    pub fn as_callable(&self, v: &JsValue) -> (r: Option<JsObject>)
        ensures
            r == self.callable(*v),
    {
        match v {
            JsValue::Object(o) => {
                if o.index < self.objects.len() {
                    match &self.objects[o.index].data {
                        ObjectData::Function(_) => Some(*o),
                        ObjectData::BoundFunction { .. } => Some(*o),
                        _ => None,
                    }
                } else {
                    None
                }
            },
            _ => None,
        }
    }

    /// Whether `o` can be constructed with `new`.
    pub fn is_constructor(&self, o: JsObject) -> (r: bool)
        requires
            self.valid(o),
        ensures
            r == is_constructor_data(self.data(o)),
    {
        match &self.objects[o.index].data {
            ObjectData::Function(f) => f.is_constructor(),
            ObjectData::BoundFunction { constructor, .. } => *constructor,
            _ => false,
        }
    }

    /// The prototype of `o`.
    pub fn get_prototype_of(&self, o: JsObject) -> (r: Option<JsObject>)
        requires
            self.valid(o),
        ensures
            r == self.objects@[o.index as int].prototype,
    {
        self.objects[o.index].prototype
    }
}

/// A descriptor with the attributes of a function's `name` and `length`.
pub open spec fn fixed_spec(value: JsValue) -> PropertyDescriptor {
    PropertyDescriptor { value, writable: false, enumerable: false, configurable: true }
}

/// A descriptor with the attributes of a function's `name` and `length`.
#[verifier::when_used_as_spec(fixed_spec)]
pub fn fixed(value: JsValue) -> (r: PropertyDescriptor)
    ensures
        r == fixed_spec(value),
{
    PropertyDescriptor { value, writable: false, enumerable: false, configurable: true }
}

} // verus!
