//! Schema-backed operator categories.
use crate::error::{rview, ErrorView, HolonError};
use crate::values::MapString;
use vstd::prelude::*;

verus! {

/// Schema-backed operator categories understood by the descriptor runtime.
#[derive(Clone, Copy, Debug, PartialEq, Eq, Structural)]
pub enum OperatorCategory {
    Equality,
    /// The schema's ordering category (comparison operators such as `<`).
    Order,
}

impl DeepView for OperatorCategory {
    type V = OperatorCategory;

    open spec fn deep_view(&self) -> OperatorCategory {
        *self
    }
}

/// The category named by an operator's enum variant `TypeName`, such as
/// `OperatorCategory.Equality`.
pub open spec fn spec_parse_category(value: Seq<char>) -> Result<OperatorCategory, ErrorView> {
    if value == "OperatorCategory.Equality"@ {
        Ok(OperatorCategory::Equality)
    } else if value == "OperatorCategory.Ordering"@ {
        Ok(OperatorCategory::Order)
    } else {
        Err(ErrorView::UnknownOperatorCategory { value })
    }
}

impl OperatorCategory {
    /// Parses the enum variant `TypeName` stored on operator descriptors.
    pub fn parse(value: &MapString) -> (res: Result<Self, HolonError>)
        ensures
            rview(res) == spec_parse_category(value@),
    {
        if value.equals(&MapString::from_str("OperatorCategory.Equality")) {
            Ok(OperatorCategory::Equality)
        } else if value.equals(&MapString::from_str("OperatorCategory.Ordering")) {
            Ok(OperatorCategory::Order)
        } else {
            Err(HolonError::UnknownOperatorCategory { value: value.to_owned_string() })
        }
    }
}

} // verus!
