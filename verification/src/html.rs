use vstd::prelude::*;

verus! {

/// What the index page shows.
pub struct IndexProps {
    pub light: bool,
}

/// `base_class`, followed by `optional_class` (after a space) when `condition` holds.
pub open spec fn conditional_class_of(base_class: Seq<char>, optional_class: Seq<char>, condition: bool) -> Seq<char> {
    if condition {
        base_class + " "@ + optional_class
    } else {
        base_class
    }
}

/// A CSS class list that carries `optional_class` only when `condition` holds.
pub fn conditional_class(base_class: &str, optional_class: &str, condition: bool) -> (class: String)
    ensures
        class@ == conditional_class_of(base_class@, optional_class@, condition),
{
    if condition {
        let mut class = String::from_str(base_class);
        class.append(" ");
        class.append(optional_class);
        class
    } else {
        String::from_str(base_class)
    }
}

/// The variable parts of the index page.
pub struct IndexView {
    /// `ON` or `OFF`, after "Light is ".
    pub status: String,
    /// The classes of the link that switches the light on.
    pub on_class: String,
    /// The classes of the link that switches the light off.
    pub off_class: String,
}

/// The status word for the light.
pub open spec fn status_of(light: bool) -> Seq<char> {
    if light {
        "ON"@
    } else {
        "OFF"@
    }
}

/// The variable parts of the index page for `props`: the status word, and the
/// two navigation links of which exactly the one matching the light's state is
/// marked `active`.
pub fn index_view(props: &IndexProps) -> (view: IndexView)
    ensures
        view.status@ == status_of(props.light),
        view.on_class@ == conditional_class_of("nav-link"@, "active"@, props.light),
        view.off_class@ == conditional_class_of("nav-link"@, "active"@, !props.light),
{
    let status = if props.light {
        String::from_str("ON")
    } else {
        String::from_str("OFF")
    };
    IndexView {
        status,
        on_class: conditional_class("nav-link", "active", props.light),
        off_class: conditional_class("nav-link", "active", !props.light),
    }
}

/// Exactly one of the two navigation links of the index page is marked
/// `active`, the one that matches the light's state.
pub proof fn law_one_active_link(light: bool)
    ensures
        conditional_class_of("nav-link"@, "active"@, light) != conditional_class_of(
            "nav-link"@,
            "active"@,
            !light,
        ),
        conditional_class_of("nav-link"@, "active"@, light) == "nav-link active"@ <==> light,
{
    reveal_strlit("nav-link");
    reveal_strlit("active");
    reveal_strlit(" ");
    reveal_strlit("nav-link active");
    assert(("nav-link"@ + " "@ + "active"@) =~= "nav-link active"@);
    assert(("nav-link"@ + " "@ + "active"@).len() != "nav-link"@.len());
}

} // verus!
