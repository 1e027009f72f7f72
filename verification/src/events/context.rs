//! The context an event speaks of, and what of it may leave the process.

use vstd::prelude::*;

verus! {

/// One attribute of a context: its name, and its value as JSON text.
pub struct Attribute {
    pub name: String,
    pub value: String,
}

impl View for Attribute {
    type V = (Seq<char>, Seq<char>);

    open spec fn view(&self) -> (Seq<char>, Seq<char>) {
        (self.name@, self.value@)
    }
}

/// The texts of a list of strings.
pub open spec fn names_view(names: Seq<String>) -> Seq<Seq<char>> {
    names.map_values(|name: String| name@)
}

/// The name and value texts of a list of attributes.
pub open spec fn attributes_view(attributes: Seq<Attribute>) -> Seq<(Seq<char>, Seq<char>)> {
    attributes.map_values(|attribute: Attribute| attribute@)
}

/// The identity and attributes that a flag is evaluated against.
pub struct Context {
    pub kind: String,
    pub key: String,
    pub anonymous: bool,
    pub attributes: Vec<Attribute>,
    /// Names of the attributes that this context itself marks private.
    pub private_attributes: Vec<String>,
}

/// What a [Context] holds, as plain mathematical values.
pub struct ContextView {
    pub kind: Seq<char>,
    pub key: Seq<char>,
    pub anonymous: bool,
    pub attributes: Seq<(Seq<char>, Seq<char>)>,
    pub private_attributes: Seq<Seq<char>>,
}

impl View for Context {
    type V = ContextView;

    open spec fn view(&self) -> ContextView {
        ContextView {
            kind: self.kind@,
            key: self.key@,
            anonymous: self.anonymous,
            attributes: attributes_view(self.attributes@),
            private_attributes: names_view(self.private_attributes@),
        }
    }
}

/// A context as it is written into an event: without the values of private
/// attributes, whose names are listed instead.
pub struct RedactedContext {
    pub kind: String,
    pub key: String,
    pub anonymous: bool,
    pub attributes: Vec<Attribute>,
    pub redacted_attributes: Vec<String>,
}

/// What a [RedactedContext] holds, as plain mathematical values.
pub struct RedactedContextView {
    pub kind: Seq<char>,
    pub key: Seq<char>,
    pub anonymous: bool,
    pub attributes: Seq<(Seq<char>, Seq<char>)>,
    pub redacted_attributes: Seq<Seq<char>>,
}

impl View for RedactedContext {
    type V = RedactedContextView;

    open spec fn view(&self) -> RedactedContextView {
        RedactedContextView {
            kind: self.kind@,
            key: self.key@,
            anonymous: self.anonymous,
            attributes: attributes_view(self.attributes@),
            redacted_attributes: names_view(self.redacted_attributes@),
        }
    }
}

/// Whether the attribute called `name` must stay inside the process: all
/// attributes are private, or the context or the configuration names it.
pub open spec fn is_private(
    name: Seq<char>,
    own: Seq<Seq<char>>,
    all_private: bool,
    global: Seq<Seq<char>>,
) -> bool {
    all_private || own.contains(name) || global.contains(name)
}

/// The test that picks the private attributes out of a context's attributes.
pub open spec fn private_test(own: Seq<Seq<char>>, all_private: bool, global: Seq<Seq<char>>)
    -> spec_fn((Seq<char>, Seq<char>)) -> bool {
    |attribute: (Seq<char>, Seq<char>)| is_private(attribute.0, own, all_private, global)
}

/// The test that picks the attributes that may be sent.
pub open spec fn public_test(own: Seq<Seq<char>>, all_private: bool, global: Seq<Seq<char>>)
    -> spec_fn((Seq<char>, Seq<char>)) -> bool {
    |attribute: (Seq<char>, Seq<char>)| !is_private(attribute.0, own, all_private, global)
}

/// What is written into an event for `context`: kind, key and the anonymous
/// mark as they are, the attributes that are not private in their order, and
/// the names of the private ones in their order.
pub open spec fn redacted(context: ContextView, all_private: bool, global: Seq<Seq<char>>)
    -> RedactedContextView {
    RedactedContextView {
        kind: context.kind,
        key: context.key,
        anonymous: context.anonymous,
        attributes: context.attributes.filter(
            public_test(context.private_attributes, all_private, global),
        ),
        redacted_attributes: context.attributes.filter(
            private_test(context.private_attributes, all_private, global),
        ).map_values(|attribute: (Seq<char>, Seq<char>)| attribute.0),
    }
}

/// Whether `names` holds a string with the text of `name`.
pub fn contains_name(names: &Vec<String>, name: &String) -> (found: bool)
    ensures
        found == names_view(names@).contains(name@),
{
    let mut i: usize = 0;
    while i < names.len()
        invariant
            i <= names.len(),
            forall|j: int| 0 <= j < i ==> names_view(names@)[j] != name@,
        decreases names.len() - i,
    {
        if names[i] == *name {
            assert(names_view(names@)[i as int] == name@);
            return true;
        }
        i += 1;
    }
    false
}

/// A copy of `names`, string by string.
pub fn copy_names(names: &Vec<String>) -> (copy: Vec<String>)
    ensures
        names_view(copy@) == names_view(names@),
{
    let mut copy: Vec<String> = Vec::new();
    let mut i: usize = 0;
    while i < names.len()
        invariant
            i <= names.len(),
            copy.len() == i,
            forall|j: int| 0 <= j < i ==> copy@[j]@ == names@[j]@,
        decreases names.len() - i,
    {
        copy.push(names[i].clone());
        i += 1;
    }
    assert(names_view(copy@) =~= names_view(names@));
    copy
}

/// A copy of `attributes`, attribute by attribute.
pub fn copy_attributes(attributes: &Vec<Attribute>) -> (copy: Vec<Attribute>)
    ensures
        attributes_view(copy@) == attributes_view(attributes@),
{
    let mut copy: Vec<Attribute> = Vec::new();
    let mut i: usize = 0;
    while i < attributes.len()
        invariant
            i <= attributes.len(),
            copy.len() == i,
            forall|j: int| 0 <= j < i ==> copy@[j]@ == attributes@[j]@,
        decreases attributes.len() - i,
    {
        copy.push(
            Attribute { name: attributes[i].name.clone(), value: attributes[i].value.clone() },
        );
        i += 1;
    }
    assert(attributes_view(copy@) =~= attributes_view(attributes@));
    copy
}

impl Context {
    /// A context of the given kind and key, not anonymous and without attributes.
    pub fn new(kind: String, key: String) -> (context: Self)
        ensures
            context@ == (ContextView {
                kind: kind@,
                key: key@,
                anonymous: false,
                attributes: Seq::empty(),
                private_attributes: Seq::empty(),
            }),
    {
        let context = Context {
            kind,
            key,
            anonymous: false,
            attributes: Vec::new(),
            private_attributes: Vec::new(),
        };
        assert(context@.attributes =~= Seq::empty());
        assert(context@.private_attributes =~= Seq::empty());
        context
    }

    /// A second context that holds the same values.
    pub fn duplicate(&self) -> (copy: Self)
        ensures
            copy@ == self@,
    {
        Context {
            kind: self.kind.clone(),
            key: self.key.clone(),
            anonymous: self.anonymous,
            attributes: copy_attributes(&self.attributes),
            private_attributes: copy_names(&self.private_attributes),
        }
    }

    /// What of this context is written into an event, under a configuration
    /// that makes all attributes private (`all_private`) or those named in
    /// `global`. The context itself is left as it is.
    pub fn redact(&self, all_private: bool, global: &Vec<String>) -> (out: RedactedContext)
        ensures
            out@ == redacted(self@, all_private, names_view(global@)),
    {
        let ghost own = names_view(self.private_attributes@);
        let ghost named = names_view(global@);
        let ghost all = attributes_view(self.attributes@);
        let ghost shown = public_test(own, all_private, named);
        let ghost held_back = private_test(own, all_private, named);
        let ghost name_of = |attribute: (Seq<char>, Seq<char>)| attribute.0;
        let mut attributes: Vec<Attribute> = Vec::new();
        let mut redacted_attributes: Vec<String> = Vec::new();
        let mut i: usize = 0;
        assert(all.take(0) =~= Seq::empty());
        assert(all.take(0).filter(shown) =~= Seq::empty()) by {
            reveal(Seq::filter);
        }
        assert(all.take(0).filter(held_back) =~= Seq::empty()) by {
            reveal(Seq::filter);
        }
        while i < self.attributes.len()
            invariant
                i <= self.attributes.len(),
                own == names_view(self.private_attributes@),
                named == names_view(global@),
                all == attributes_view(self.attributes@),
                shown == public_test(own, all_private, named),
                held_back == private_test(own, all_private, named),
                name_of == |attribute: (Seq<char>, Seq<char>)| attribute.0,
                attributes_view(attributes@) =~= all.take(i as int).filter(shown),
                names_view(redacted_attributes@) =~= all.take(i as int).filter(held_back).map_values(
                    name_of,
                ),
            decreases self.attributes.len() - i,
        {
            let attribute = &self.attributes[i];
            let private = all_private || contains_name(&self.private_attributes, &attribute.name)
                || contains_name(global, &attribute.name);
            proof {
                assert(all.take(i as int + 1) =~= all.take(i as int).push(attribute@));
                all.take(i as int).lemma_filter_push(attribute@, shown);
                all.take(i as int).lemma_filter_push(attribute@, held_back);
                assert(private == held_back(attribute@));
                assert(private == !shown(attribute@));
            }
            if private {
                let ghost before = redacted_attributes@;
                let ghost held = all.take(i as int).filter(held_back);
                redacted_attributes.push(attribute.name.clone());
                assert(names_view(redacted_attributes@) =~= names_view(before).push(
                    attribute.name@,
                ));
                assert(held.push(attribute@).map_values(name_of) =~= held.map_values(
                    name_of,
                ).push(attribute.name@));
            } else {
                attributes.push(
                    Attribute { name: attribute.name.clone(), value: attribute.value.clone() },
                );
                assert(attributes_view(attributes@) =~= all.take(i as int + 1).filter(shown));
            }
            i += 1;
        }
        assert(all.take(i as int) =~= all);
        RedactedContext {
            kind: self.kind.clone(),
            key: self.key.clone(),
            anonymous: self.anonymous,
            attributes,
            redacted_attributes,
        }
    }
}

/// Redaction sends no attribute that is private, and sends every other
/// attribute of the context as it was: with its name and value, once for each
/// time the context holds it. Nothing is sent that the context did not hold,
/// and where no attribute is private the attributes are sent unchanged.
pub proof fn lemma_redaction_drops_private_keeps_rest(
    context: ContextView,
    all_private: bool,
    global: Seq<Seq<char>>,
)
    ensures
        forall|j: int|
            0 <= j < redacted(context, all_private, global).attributes.len() ==> !is_private(
                (#[trigger] redacted(context, all_private, global).attributes[j]).0,
                context.private_attributes,
                all_private,
                global,
            ),
        forall|i: int|
            0 <= i < context.attributes.len() && !is_private(
                context.attributes[i].0,
                context.private_attributes,
                all_private,
                global,
            ) ==> redacted(context, all_private, global).attributes.contains(
                #[trigger] context.attributes[i],
            ),
        forall|j: int|
            0 <= j < redacted(context, all_private, global).attributes.len()
                ==> context.attributes.contains(
                #[trigger] redacted(context, all_private, global).attributes[j],
            ),
        (forall|i: int|
            0 <= i < context.attributes.len() ==> !is_private(
                (#[trigger] context.attributes[i]).0,
                context.private_attributes,
                all_private,
                global,
            )) ==> redacted(context, all_private, global).attributes == context.attributes,
{
    let shown = public_test(context.private_attributes, all_private, global);
    let out = context.attributes.filter(shown);
    assert forall|j: int| 0 <= j < out.len() implies shown(#[trigger] out[j]) by {
        context.attributes.lemma_filter_pred(shown, j);
    }
    assert forall|i: int|
        0 <= i < context.attributes.len() && shown(context.attributes[i]) implies out.contains(
        #[trigger] context.attributes[i],
    ) by {
        context.attributes.lemma_filter_contains(shown, i);
    }
    assert forall|j: int| 0 <= j < out.len() implies context.attributes.contains(
        #[trigger] out[j],
    ) by {
        assert(out.contains(out[j]));
        context.attributes.lemma_filter_contains_rev(shown, out[j]);
    }
    if forall|i: int| 0 <= i < context.attributes.len() ==> shown(#[trigger] context.attributes[i]) {
        crate::seq_lemmas::lemma_filter_keeps_all(context.attributes, shown);
    }
}

} // verus!
