//! Runtime wrapper for property descriptors.
use crate::accessor_helpers::{effective_property_value, require_bool, require_single_related, require_string, spec_effective_property_value, spec_require_bool, spec_require_single_related, spec_require_string};
use crate::descriptor::Descriptor;
use crate::error::{rview, ErrorView, HolonError};
use crate::graph::{holon_of, law_property_read_after_write, spec_property_value, spec_set_property, with_property, HolonGraph, HolonReference, HolonView};
use crate::names::{CorePropertyTypeName, CoreRelationshipTypeName};
use crate::type_header::{spec_type_name, TypeHeader};
use crate::value_descriptor::ValueDescriptor;
use crate::values::{kind_label, BaseValue, BaseValueView, PropertyName};
use vstd::prelude::*;
use vstd::string::*;

verus! {

/// Reads an effective boolean flag, reporting a non-boolean value.
pub open spec fn effective_flag(v: Option<BaseValueView>) -> Option<Result<bool, ErrorView>> {
    match v {
        Some(BaseValueView::BooleanValue(b)) => Some(Ok(b)),
        Some(other) => Some(Err(ErrorView::UnexpectedValueType(kind_label(other.kind()), "Boolean"@))),
        None => None,
    }
}

/// Whether instances must carry the property: the effective `IsValueRequired`,
/// falling back to the effective `IsRequired` of older descriptors.
pub open spec fn spec_effective_is_value_required(g: Seq<HolonView>, p: HolonReference) -> Result<bool, ErrorView> {
    match spec_effective_property_value(g, p, CorePropertyTypeName::IsValueRequired.spec_name()) {
        Err(e) => Err(e),
        Ok(v) => match effective_flag(v) {
            Some(r) => r,
            None => match spec_effective_property_value(g, p, CorePropertyTypeName::IsRequired.spec_name()) {
                Err(e) => Err(e),
                Ok(w) => match effective_flag(w) {
                    Some(r) => r,
                    None => Err(ErrorView::EmptyField("IsValueRequired"@)),
                },
            },
        },
    }
}

/// The default value to write into `target`, if any: only when `target` has no
/// value for the property and the property is effectively required.
pub open spec fn spec_default_to_populate(g: Seq<HolonView>, p: HolonReference, target: HolonReference) -> Result<
    Option<(Seq<char>, BaseValueView)>,
    ErrorView,
> {
    match spec_type_name(g, p) {
        Err(e) => Err(e),
        Ok(name) => match spec_property_value(g, target, name) {
            Err(e) => Err(e),
            Ok(Some(_)) => Ok(None),
            Ok(None) => match spec_effective_is_value_required(g, p) {
                Err(e) => Err(e),
                Ok(false) => Ok(None),
                Ok(true) => match spec_effective_property_value(g, p, CorePropertyTypeName::DefaultValue.spec_name()) {
                    Err(e) => Err(e),
                    Ok(None) => Ok(None),
                    Ok(Some(d)) => Ok(Some((name, d))),
                },
            },
        },
    }
}

/// The graph after populating the effective default of `p` into `target`.
pub open spec fn spec_populate_default(g: Seq<HolonView>, p: HolonReference, target: HolonReference) -> Seq<HolonView> {
    match spec_default_to_populate(g, p, target) {
        Ok(Some((name, v))) => spec_set_property(g, target, name, v),
        _ => g,
    }
}

/// Populating a default twice leaves the graph as populating it once: a value
/// is written only where none is present, and once written it is present.
/// (A descriptor populating its own slot could rename itself; that is excluded.)
pub proof fn law_populate_default_idempotent(g: Seq<HolonView>, p: HolonReference, target: HolonReference)
    requires
        target.slot() != p.slot(),
        spec_default_to_populate(g, p, target) is Ok,
    ensures
        spec_default_to_populate(spec_populate_default(g, p, target), p, target) == Ok::<
            Option<(Seq<char>, BaseValueView)>,
            ErrorView,
        >(None),
{
    if let Ok(Some((name, v))) = spec_default_to_populate(g, p, target) {
        law_property_read_after_write(g, target, name, v, p, CorePropertyTypeName::TypeName.spec_name());
        law_property_read_after_write(g, target, name, v, target, name);
    }
}

/// Runtime wrapper for property descriptors.
pub struct PropertyDescriptor {
    holon: HolonReference,
}

impl View for PropertyDescriptor {
    type V = HolonReference;

    closed spec fn view(&self) -> HolonReference {
        self.holon
    }
}

impl DeepView for PropertyDescriptor {
    type V = HolonReference;

    open spec fn deep_view(&self) -> HolonReference {
        self@
    }
}

impl Descriptor for PropertyDescriptor {
    open spec fn spec_holon(&self) -> HolonReference {
        self@
    }

    fn holon(&self) -> (r: HolonReference) {
        self.holon
    }
}

impl From<HolonReference> for PropertyDescriptor {
    fn from(holon: HolonReference) -> (d: Self)
        ensures
            d@ == holon,
    {
        Self { holon }
    }
}

impl vstd::std_specs::convert::FromSpecImpl<HolonReference> for PropertyDescriptor {
    open spec fn obeys_from_spec() -> bool {
        true
    }

    closed spec fn from_spec(v: HolonReference) -> Self {
        PropertyDescriptor { holon: v }
    }
}

/// Wraps each reference of `members`, preserving order.
pub fn wrap_all_property_descriptor(members: Vec<HolonReference>) -> (r: Vec<PropertyDescriptor>)
    ensures
        r.deep_view() == members@,
{
    let mut out: Vec<PropertyDescriptor> = Vec::new();
    let mut i: usize = 0;
    while i < members.len()
        invariant
            i <= members.len(),
            out.deep_view() == members@.subrange(0, i as int),
        decreases members.len() - i,
    {
        let ghost before = out.deep_view();
        out.push(PropertyDescriptor { holon: members[i] });
        assert(out.deep_view() =~= before.push(members@[i as int]));
        assert(members@.subrange(0, i as int).push(members@[i as int]) =~= members@.subrange(0, i + 1));
        i = i + 1;
    }
    assert(members@.subrange(0, i as int) =~= members@);
    out
}

impl PropertyDescriptor {
    /// Wraps an already-resolved descriptor holon reference.
    pub fn from_holon(holon: HolonReference) -> (d: Self)
        ensures
            d@ == holon,
    {
        Self { holon }
    }

    /// Projects the shared descriptor header view for this descriptor holon.
    pub fn header(&self) -> (h: TypeHeader)
        ensures
            h.holon == self@,
    {
        TypeHeader::new(self.holon)
    }

    /// Returns the runtime property name declared by this descriptor.
    pub fn property_name(&self, g: &HolonGraph) -> (res: Result<PropertyName, HolonError>)
        ensures
            rview(res) == spec_require_string(g@, self@, CorePropertyTypeName::PropertyName.spec_name()),
    {
        let n = require_string(g, self.holon, &CorePropertyTypeName::PropertyName.as_property_name())?;
        Ok(PropertyName(n))
    }

    /// Returns whether instances must provide this property.
    pub fn is_required(&self, g: &HolonGraph) -> (res: Result<bool, HolonError>)
        ensures
            rview(res) == spec_require_bool(g@, self@, CorePropertyTypeName::IsRequired.spec_name()),
    {
        require_bool(g, self.holon, &CorePropertyTypeName::IsRequired.as_property_name())
    }

    /// Returns the value descriptor reached through the required `ValueType` relationship.
    pub fn value_type(&self, g: &HolonGraph) -> (res: Result<ValueDescriptor, HolonError>)
        ensures
            rview(res) == spec_require_single_related(g@, self@, CoreRelationshipTypeName::ValueType),
    {
        let v = require_single_related(g, self.holon, CoreRelationshipTypeName::ValueType)?;
        Ok(ValueDescriptor::from_holon(v))
    }

    fn effective_flag_exec(v: Option<BaseValue>) -> (r: Option<Result<bool, HolonError>>)
        ensures
            match r {
                Some(Ok(b)) => effective_flag(crate::inheritance::opt_value_view(v)) == Some(Ok::<bool, ErrorView>(b)),
                Some(Err(e)) => effective_flag(crate::inheritance::opt_value_view(v)) == Some(Err::<bool, ErrorView>(e@)),
                None => effective_flag(crate::inheritance::opt_value_view(v)) is None,
            },
    {
        match v {
            Some(BaseValue::BooleanValue(b)) => Some(Ok(b.0)),
            Some(other) => Some(Err(HolonError::UnexpectedValueType(other.kind().label(), String::from_str("Boolean")))),
            None => None,
        }
    }

    /// Whether the property is effectively required (see `spec_effective_is_value_required`).
    pub fn effective_is_value_required(&self, g: &HolonGraph) -> (res: Result<bool, HolonError>)
        ensures
            rview(res) == spec_effective_is_value_required(g@, self@),
    {
        let v = effective_property_value(g, self.holon, &CorePropertyTypeName::IsValueRequired.as_property_name())?;
        match Self::effective_flag_exec(v) {
            Some(r) => r,
            None => {
                let w = effective_property_value(g, self.holon, &CorePropertyTypeName::IsRequired.as_property_name())?;
                match Self::effective_flag_exec(w) {
                    Some(r) => r,
                    None => Err(HolonError::EmptyField(String::from_str("IsValueRequired"))),
                }
            },
        }
    }

    /// The effective `DefaultValue` of this property descriptor, self first along `Extends`.
    pub fn effective_default_value(&self, g: &HolonGraph) -> (res: Result<Option<BaseValue>, HolonError>)
        ensures
            rview(res) == spec_effective_property_value(g@, self@, CorePropertyTypeName::DefaultValue.spec_name()),
    {
        effective_property_value(g, self.holon, &CorePropertyTypeName::DefaultValue.as_property_name())
    }

    /// Writes this descriptor's effective default into `target` only when the
    /// target has no value for the property and the property is required.
    pub fn populate_default_if_required_and_absent(&self, g: &mut HolonGraph, target: HolonReference) -> (res: Result<(), HolonError>)
        ensures
            match spec_default_to_populate(old(g)@, self@, target) {
                Err(e) => res matches Err(x) && x@ == e,
                Ok(None) => res is Ok && final(g)@ == old(g)@,
                Ok(Some((name, v))) => res is Ok && final(g)@ == old(g)@.update(
                    target.slot() as int,
                    with_property(holon_of(old(g)@, target)->Some_0, name, v),
                ),
            },
            res is Err ==> final(g)@ == old(g)@,
            res is Ok ==> final(g)@ == spec_populate_default(old(g)@, self@, target),
    {
        let name = TypeHeader::new(self.holon).declared_type_name(g)?;
        let pname = PropertyName(name);
        if g.property_value(target, &pname)?.is_some() {
            return Ok(());
        }
        if !self.effective_is_value_required(g)? {
            return Ok(());
        }
        match self.effective_default_value(g)? {
            Some(default_value) => {
                g.with_property_value(target, pname, default_value)
            },
            None => Ok(()),
        }
    }
}

} // verus!
