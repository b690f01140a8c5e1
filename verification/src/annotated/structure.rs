//! User structs of the annotated tree.

use crate::model::{concat, concat_push, first, join, join_push};
use crate::text::is_reserved_name;
use crate::types::{member_named, Type, TypeView};
use vstd::prelude::*;
use vstd::string::*;

verus! {

/// A user struct: its name, its members in declaration order and, when the
/// members are annotated, one semantic per member.
#[derive(Debug)]
pub struct Struct {
    name: String,
    members: Vec<(String, Type)>,
    semantics: Option<Vec<String>>,
}

/// The model of a [`Struct`].
pub struct StructView {
    pub name: Seq<char>,
    pub members: Seq<(Seq<char>, TypeView)>,
    pub semantics: Option<Seq<Seq<char>>>,
}

/// The test for a struct called `name`.
pub open spec fn struct_named(name: Seq<char>) -> spec_fn(StructView) -> bool {
    |s: StructView| s.name == name
}

impl StructView {
    /// Whether the struct is in order: every name of a member is the name of
    /// that member alone and has no reserved prefix, and either every
    /// member has a semantic or the struct has no semantics.
    pub open spec fn in_order(self) -> bool {
        &&& forall|i: int|
            0 <= i < self.members.len() ==> first(
                self.members,
                member_named((#[trigger] self.members[i]).0),
            ) == Some(i) && !is_reserved_name(self.members[i].0)
        &&& (self.semantics matches Some(semantics) ==> semantics.len() == self.members.len())
    }

    /// The member declarations in HLSL, each on a line of its own, with the
    /// member's semantic where the struct has semantics.
    pub open spec fn hlsl_members(self) -> Seq<Seq<char>> {
        Seq::new(
            self.members.len(),
            |i: int|
                "    "@ + self.members[i].1.hlsl() + " "@ + self.members[i].0 + (match self.semantics {
                    Some(semantics) if i < semantics.len() => ": "@ + semantics[i],
                    _ => Seq::empty(),
                }) + ";\n"@,
        )
    }

    /// The parameters of the generated HLSL constructor, one for each member.
    pub open spec fn hlsl_constructor_parameters(self) -> Seq<Seq<char>> {
        Seq::new(self.members.len(), |i: int| self.members[i].1.hlsl() + " "@ + self.members[i].0)
    }

    /// The assignments in the generated HLSL constructor, one for each
    /// member.
    pub open spec fn hlsl_constructor_assignments(self) -> Seq<Seq<char>> {
        Seq::new(
            self.members.len(),
            |i: int| "    output."@ + self.members[i].0 + " = "@ + self.members[i].0 + ";\n"@,
        )
    }

    /// The member declarations in GLSL, each on a line of its own.
    pub open spec fn glsl_members(self) -> Seq<Seq<char>> {
        Seq::new(
            self.members.len(),
            |i: int| "    "@ + self.members[i].1.glsl() + " "@ + self.members[i].0 + ";\n"@,
        )
    }

    /// The struct in HLSL, followed by its generated constructor
    /// `acsl_create_` and the name of the struct, which takes one argument
    /// for each member and returns the struct filled with them.
    pub open spec fn hlsl(self) -> Seq<char> {
        "struct "@ + self.name + " {\n"@ + concat(self.hlsl_members()) + "};\n"@ + self.name
            + " acsl_create_"@ + self.name + "("@ + join(self.hlsl_constructor_parameters(), ", "@)
            + ") {\n"@ + "    "@ + self.name + " output;\n"@ + concat(
            self.hlsl_constructor_assignments(),
        ) + "    return output;\n}\n"@
    }

    /// The struct in GLSL; semantics are left out.
    pub open spec fn glsl(self) -> Seq<char> {
        "struct "@ + self.name + " {\n"@ + concat(self.glsl_members()) + "};\n"@
    }

    /// The name of the member that holds the position: the last member whose
    /// semantic is `SV_POSITION`.
    pub open spec fn position_member(self) -> Option<Seq<char>> {
        match self.semantics {
            Some(semantics) => position_among(self.members, semantics, self.members.len() as int),
            None => None,
        }
    }
}

/// The name of the last of the first `count` members whose semantic is
/// `SV_POSITION`.
pub open spec fn position_among(
    members: Seq<(Seq<char>, TypeView)>,
    semantics: Seq<Seq<char>>,
    count: int,
) -> Option<Seq<char>>
    decreases count,
{
    if count <= 0 {
        None
    } else if count <= semantics.len() && semantics[count - 1] == "SV_POSITION"@ {
        Some(members[count - 1].0)
    } else {
        position_among(members, semantics, count - 1)
    }
}

impl Struct {
    /// The model of this struct.
    pub closed spec fn model(&self) -> StructView
        decreases self,
    {
        StructView {
            name: self.name@,
            members: Seq::new(
                self.members.len() as nat,
                |i: int|
                    if 0 <= i < self.members.len() {
                        (self.members[i].0@, self.members[i].1.model())
                    } else {
                        (Seq::empty(), TypeView::Primitive(crate::types::Primitive::Void))
                    },
            ),
            semantics: self.semantics.deep_view(),
        }
    }

    pub fn new(name: String, members: Vec<(String, Type)>, semantics: Option<Vec<String>>) -> (s: Self)
        ensures
            s@ == (StructView {
                name: name@,
                members: members.deep_view(),
                semantics: semantics.deep_view(),
            }),
    {
        let s = Struct { name, members, semantics };
        assert(s.model().members =~= members.deep_view());
        s
    }

    pub fn name(&self) -> (name: &str)
        ensures
            name@ == self@.name,
    {
        self.name.as_str()
    }

    pub fn members(&self) -> (members: &[(String, Type)])
        ensures
            members.deep_view() == self@.members,
    {
        let members = self.members.as_slice();
        assert(members.deep_view() =~= self.model().members);
        members
    }

    /// The semantics of the members, for a struct that has them.
    pub fn semantics(&self) -> (semantics: &[String])
        requires
            self@.semantics is Some,
        ensures
            Some(semantics.deep_view()) == self@.semantics,
    {
        let semantics = self.semantics.as_ref().unwrap().as_slice();
        assert(semantics.deep_view() =~= self.model().semantics->0);
        semantics
    }

    /// The struct in HLSL.
    pub fn generate_hlsl(&self) -> (text: String)
        ensures
            text@ == self@.hlsl(),
    {
        let mut struct_hlsl = "struct ".to_owned();
        struct_hlsl.append(self.name.as_str());
        struct_hlsl.append(" {\n");
        let mut constructor_declaration_hlsl = self.name.clone();
        constructor_declaration_hlsl.append(" acsl_create_");
        constructor_declaration_hlsl.append(self.name.as_str());
        constructor_declaration_hlsl.append("(");
        let mut constructor_body_hlsl = "    ".to_owned();
        constructor_body_hlsl.append(self.name.as_str());
        constructor_body_hlsl.append(" output;\n");
        let ghost view = self@;
        let ghost struct_start = struct_hlsl@;
        let ghost declaration_start = constructor_declaration_hlsl@;
        let ghost body_start = constructor_body_hlsl@;
        let ghost declared = view.hlsl_members();
        let ghost parameters = view.hlsl_constructor_parameters();
        let ghost assignments = view.hlsl_constructor_assignments();
        let mut i: usize = 0;
        proof {
            assert(declared.take(0) =~= Seq::<Seq<char>>::empty());
            assert(parameters.take(0) =~= Seq::<Seq<char>>::empty());
            assert(assignments.take(0) =~= Seq::<Seq<char>>::empty());
            assert(struct_hlsl@ =~= struct_start + concat(declared.take(0)));
            assert(constructor_declaration_hlsl@ =~= declaration_start + join(parameters.take(0), ", "@));
            assert(constructor_body_hlsl@ =~= body_start + concat(assignments.take(0)));
        }
        while i < self.members.len()
            invariant
                i <= self.members.len(),
                view == self@,
                declared == view.hlsl_members(),
                parameters == view.hlsl_constructor_parameters(),
                assignments == view.hlsl_constructor_assignments(),
                struct_hlsl@ == struct_start + concat(declared.take(i as int)),
                constructor_declaration_hlsl@ == declaration_start + join(parameters.take(i as int), ", "@),
                constructor_body_hlsl@ == body_start + concat(assignments.take(i as int)),
            decreases self.members.len() - i,
        {
            let ghost struct_before = struct_hlsl@;
            let ghost body_before = constructor_body_hlsl@;
            let member_type = self.members[i].1.hlsl();
            let name = self.members[i].0.as_str();
            struct_hlsl.append("    ");
            struct_hlsl.append(member_type.as_str());
            struct_hlsl.append(" ");
            struct_hlsl.append(name);
            constructor_body_hlsl.append("    output.");
            constructor_body_hlsl.append(name);
            constructor_body_hlsl.append(" = ");
            constructor_body_hlsl.append(name);
            constructor_body_hlsl.append(";\n");
            if i != 0 {
                constructor_declaration_hlsl.append(", ");
            }
            constructor_declaration_hlsl.append(member_type.as_str());
            constructor_declaration_hlsl.append(" ");
            constructor_declaration_hlsl.append(name);
            match &self.semantics {
                Some(semantics) => {
                    if i < semantics.len() {
                        assert(self.semantics.deep_view()->0[i as int] == semantics[i as int]@);
                        struct_hlsl.append(": ");
                        struct_hlsl.append(semantics[i].as_str());
                    }
                },
                None => {},
            }
            struct_hlsl.append(";\n");
            proof {
                concat_push(declared.take(i as int), declared[i as int]);
                assert(declared.take(i as int).push(declared[i as int]) =~= declared.take(i + 1));
                assert(struct_hlsl@ =~= struct_before + declared[i as int]);
                assert(struct_hlsl@ =~= struct_start + concat(declared.take(i + 1)));
                concat_push(assignments.take(i as int), assignments[i as int]);
                assert(assignments.take(i as int).push(assignments[i as int]) =~= assignments.take(
                    i + 1,
                ));
                assert(constructor_body_hlsl@ =~= body_before + assignments[i as int]);
                assert(constructor_body_hlsl@ =~= body_start + concat(assignments.take(i + 1)));
                join_push(parameters.take(i as int), ", "@, parameters[i as int]);
                assert(parameters.take(i as int).push(parameters[i as int]) =~= parameters.take(i + 1));
                assert(constructor_declaration_hlsl@ =~= declaration_start + join(
                    parameters.take(i + 1),
                    ", "@,
                ));
            }
            i += 1;
        }
        proof {
            assert(declared.take(self.members.len() as int) =~= declared);
            assert(parameters.take(self.members.len() as int) =~= parameters);
            assert(assignments.take(self.members.len() as int) =~= assignments);
        }
        struct_hlsl.append("};\n");
        constructor_declaration_hlsl.append(") {\n");
        constructor_body_hlsl.append("    return output;\n}\n");
        struct_hlsl.append(constructor_declaration_hlsl.as_str());
        struct_hlsl.append(constructor_body_hlsl.as_str());
        assert(struct_hlsl@ =~= view.hlsl());
        struct_hlsl
    }

    /// The struct in GLSL.
    pub fn generate_glsl(&self) -> (text: String)
        ensures
            text@ == self@.glsl(),
    {
        let mut glsl = "struct ".to_owned();
        glsl.append(self.name.as_str());
        glsl.append(" {\n");
        let ghost view = self@;
        let ghost start = glsl@;
        let ghost declared = view.glsl_members();
        let mut i: usize = 0;
        assert(declared.take(0) =~= Seq::<Seq<char>>::empty());
        assert(glsl@ =~= start + concat(declared.take(0)));
        while i < self.members.len()
            invariant
                i <= self.members.len(),
                view == self@,
                declared == view.glsl_members(),
                glsl@ == start + concat(declared.take(i as int)),
            decreases self.members.len() - i,
        {
            let ghost before = glsl@;
            glsl.append("    ");
            glsl.append(self.members[i].1.glsl().as_str());
            glsl.append(" ");
            glsl.append(self.members[i].0.as_str());
            glsl.append(";\n");
            proof {
                concat_push(declared.take(i as int), declared[i as int]);
                assert(declared.take(i as int).push(declared[i as int]) =~= declared.take(i + 1));
                assert(glsl@ =~= before + declared[i as int]);
                assert(glsl@ =~= start + concat(declared.take(i + 1)));
            }
            i += 1;
        }
        assert(declared.take(self.members.len() as int) =~= declared);
        glsl.append("};\n");
        glsl
    }

    /// The name of the member that holds the position, if there is one.
    pub fn position_member(&self) -> (name: Option<String>)
        ensures
            name.deep_view() == self@.position_member(),
    {
        match &self.semantics {
            Some(semantics) => {
                let mut i: usize = self.members.len();
                while i > 0
                    invariant
                        i <= self.members.len(),
                        self.semantics == Some(*semantics),
                        position_among(self@.members, semantics.deep_view(), i as int)
                            == self@.position_member(),
                    decreases i,
                {
                    if i <= semantics.len() {
                        assert(semantics.deep_view()[i - 1] == semantics[i - 1]@);
                        if crate::text::str_eq(semantics[i - 1].as_str(), "SV_POSITION") {
                            return Some(self.members[i - 1].0.clone());
                        }
                    }
                    i -= 1;
                }
                None
            },
            None => None,
        }
    }

    /// Whether every member carries a semantic.
    pub fn has_semantics(&self) -> (r: bool)
        ensures
            r == (self@.semantics is Some),
    {
        self.semantics.is_some()
    }
}

impl DeepView for Struct {
    type V = StructView;

    open spec fn deep_view(&self) -> StructView {
        self.model()
    }
}

impl View for Struct {
    type V = StructView;

    open spec fn view(&self) -> StructView {
        self.model()
    }
}

} // verus!
