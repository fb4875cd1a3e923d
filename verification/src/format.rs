use crate::st_ast::{
    asts_model, ArrayDecl, AstModel, FieldDecl, GenericParamDecl, GlobalDecl, IdentifierDecl,
    LambdaDecl, MethodDecl, MethodParamDecl, NodeData, NodeModel, StAst, SymbolNode, TypeDecl,
    TypeName, TypeProgramNode, TypeRefDecl, UnitDecl,
};
use crate::text::{join_display, join_seq, join_strings, strings_view};
use vstd::prelude::*;
use vstd::string::*;

verus! {

/// The source texts of a list of nodes.
pub open spec fn texts_of(s: Seq<AstModel>) -> Seq<Seq<char>>
    decreases s, 0int,
{
    Seq::new(
        s.len(),
        |i: int|
            if 0 <= i < s.len() {
                source_text(s[i])
            } else {
                Seq::empty()
            },
    )
}

/// The source texts of a list of nodes between `start` and `end`, with
/// `separator` between neighbours.
pub open spec fn set_text(
    start: Seq<char>,
    end: Seq<char>,
    separator: Seq<char>,
    s: Seq<AstModel>,
) -> Seq<char>
    decreases s, 1int,
{
    start + join_seq(texts_of(s), separator) + end
}

/// The commas of an array of `arity` dimensions: one less than dimensions.
pub open spec fn commas(arity: int) -> Seq<char> {
    Seq::new(
        if arity > 0 {
            (arity - 1) as nat
        } else {
            0
        },
        |i: int| ',',
    )
}

/// The text before a declaration that may be static.
pub open spec fn static_text(is_static: bool) -> Seq<char> {
    if is_static {
        "static "@
    } else {
        Seq::empty()
    }
}

/// The source text that a node stands for.
pub open spec fn source_text(a: AstModel) -> Seq<char>
    decreases a, 2int,
{
    match a.data {
        NodeModel::SymbolNode { name } => name,
        NodeModel::TypeName { path } => join_seq(texts_of(path), "::"@),
        NodeModel::ArrayDecl { arity, type_decl } => source_text(*type_decl) + "["@ + commas(
            arity as int,
        ) + "]"@,
        NodeModel::TypeRefDecl { name, generic_decl } => source_text(*name) + (match generic_decl {
            Some(s) => set_text("<"@, ">"@, ", "@, s),
            None => Seq::empty(),
        }),
        NodeModel::LambdaDecl { generic_params, params, return_type } => (match generic_params {
            Some(s) => set_text("<"@, ">"@, ", "@, s),
            None => Seq::empty(),
        }) + set_text("("@, ")"@, ", "@, params) + " => "@ + (match return_type {
            Some(r) => source_text(*r),
            None => "void"@,
        }),
        NodeModel::MethodParamDecl { type_ref, variadic } => (if variadic {
            "..."@
        } else {
            Seq::empty()
        }) + source_text(*type_ref),
        NodeModel::GenericParamDecl { name, inherits } => source_text(*name) + (match inherits {
            Some(s) => ": "@ + join_seq(texts_of(s), " + "@),
            None => Seq::empty(),
        }),
        NodeModel::IdentifierDecl { name, type_ref } => source_text(*name) + ": "@ + source_text(
            *type_ref,
        ),
        NodeModel::TypeDecl { name, generic_params, inherits, body } => "type "@ + source_text(
            *name,
        ) + (match generic_params {
            Some(s) => set_text("<"@, ">"@, ", "@, s),
            None => Seq::empty(),
        }) + (match inherits {
            Some(s) => set_text(": "@, Seq::empty(), " + "@, s),
            None => Seq::empty(),
        }) + (match body {
            Some(s) => " "@ + set_text("{\n"@, "\n}"@, "\n"@, s),
            None => ";"@,
        }),
        NodeModel::FieldDecl { identifier, is_static } => static_text(is_static) + source_text(
            *identifier,
        ) + ";"@,
        NodeModel::MethodDecl { name, generic_params, params, return_type, is_static } =>
            static_text(is_static) + source_text(*name) + (match generic_params {
            Some(s) => set_text("<"@, ">"@, ", "@, s),
            None => Seq::empty(),
        }) + set_text("("@, ")"@, ", "@, params) + (match return_type {
            Some(r) => ": "@ + source_text(*r),
            None => Seq::empty(),
        }) + ";"@,
        NodeModel::GlobalDecl { identifier } => "static "@ + source_text(*identifier) + ";"@,
        NodeModel::TypeProgramNode { statements } => join_seq(texts_of(statements), "\n\n"@),
        NodeModel::UnitDecl { unit } => "("@ + source_text(*unit) + ")"@,
    }
}

/// The source texts of the nodes of a list.
#[verifier::rlimit(50)]
fn format_all(params: &Vec<StAst>) -> (r: Vec<String>)
    ensures
        strings_view(r@) == texts_of(asts_model(params@)),
    decreases params, 0int,
{
    let mut texts: Vec<String> = Vec::new();
    let mut i: usize = 0;
    while i < params.len()
        invariant
            i <= params@.len(),
            texts@.len() == i,
            forall|j: int| 0 <= j < i ==> (#[trigger] texts@[j])@ == source_text(params@[j]@),
        decreases params@.len() - i,
    {
        texts.push(params[i].format_source());
        i = i + 1;
    }
    proof {
        assert(strings_view(texts@) =~= texts_of(asts_model(params@)));
    }
    texts
}

/// The source texts of `params` between `start` and `end`, with `separator`
/// between neighbours.
#[verifier::rlimit(50)]
pub fn format_set(start: &str, end: &str, separator: &str, params: &Vec<StAst>) -> (r: String)
    ensures
        r@ == set_text(start@, end@, separator@, asts_model(params@)),
    decreases params, 1int,
{
    let texts = format_all(params);
    let mut r = start.to_owned();
    r.append(join_strings(&texts, separator).as_str());
    r.append(end);
    r
}

/// The source texts of an optional list between `start` and `end`, or
/// `otherwise` for no list.
fn format_opt_set(
    start: &str,
    end: &str,
    separator: &str,
    params: &Option<Vec<StAst>>,
) -> (r: String)
    ensures
        r@ == (match *params {
            Some(v) => set_text(start@, end@, separator@, asts_model(v@)),
            None => Seq::empty(),
        }),
    decreases params, 2int,
{
    match params {
        Some(v) => format_set(start, end, separator, v),
        None => String::new(),
    }
}

/// The text of the commas of an array.
fn format_commas(arity: usize) -> (r: String)
    ensures
        r@ == commas(arity as int),
{
    let mut r = String::new();
    let mut i: usize = 1;
    proof {
        assert(r@ =~= commas(1));
    }
    if arity == 0 {
        proof {
            assert(r@ =~= commas(0));
        }
        return r;
    }
    while i < arity
        invariant
            1 <= i <= arity,
            r@ == commas(i as int),
        decreases arity - i,
    {
        r.append(",");
        proof {
            reveal_strlit(",");
            assert(r@ =~= commas(i + 1));
        }
        i = i + 1;
    }
    r
}

/// The text before a declaration that may be static.
fn format_static(is_static: bool) -> (r: String)
    ensures
        r@ == static_text(is_static),
{
    if is_static {
        "static ".to_owned()
    } else {
        String::new()
    }
}

impl StAst {
    /// The source text that the node stands for.
    pub fn format_source(&self) -> (r: String)
        ensures
            r@ == source_text(self@),
        decreases self, 2int,
    {
        self.data.format_source()
    }

    pub fn format_param_set(params: &Vec<StAst>) -> (r: String)
        ensures
            r@ == set_text("("@, ")"@, ", "@, asts_model(params@)),
        decreases params, 2int,
    {
        format_set("(", ")", ", ", params)
    }

    pub fn format_generic_param_set(params: &Vec<StAst>) -> (r: String)
        ensures
            r@ == set_text("<"@, ">"@, ", "@, asts_model(params@)),
        decreases params, 2int,
    {
        format_set("<", ">", ", ", params)
    }

    pub fn format_body(params: &Vec<StAst>) -> (r: String)
        ensures
            r@ == set_text("{\n"@, "\n}"@, "\n"@, asts_model(params@)),
        decreases params, 2int,
    {
        format_set("{\n", "\n}", "\n", params)
    }

    pub fn format_inherits(params: &Vec<StAst>) -> (r: String)
        ensures
            r@ == set_text(": "@, Seq::empty(), " + "@, asts_model(params@)),
        decreases params, 2int,
    {
        let r = format_set(": ", "", " + ", params);
        proof {
            reveal_strlit("");
            assert(""@ =~= Seq::<char>::empty());
        }
        r
    }
}

/// The source text of a node as the model of what it holds sees it.
pub open spec fn data_text(d: NodeModel) -> Seq<char> {
    source_text(AstModel { start: 0, end: 0, data: d, cached: None })
}

impl NodeData {
    /// The source text that a node holding this stands for.
    pub fn format_source(&self) -> (r: String)
        ensures
            r@ == data_text(self@),
        decreases self, 1int,
    {
        match self {
            NodeData::SymbolNode(d) => d.format_source(),
            NodeData::TypeName(d) => d.format_source(),
            NodeData::ArrayDecl(d) => d.format_source(),
            NodeData::TypeRefDecl(d) => d.format_source(),
            NodeData::LambdaDecl(d) => d.format_source(),
            NodeData::MethodParamDecl(d) => d.format_source(),
            NodeData::GenericParamDecl(d) => d.format_source(),
            NodeData::IdentifierDecl(d) => d.format_source(),
            NodeData::TypeDecl(d) => d.format_source(),
            NodeData::FieldDecl(d) => d.format_source(),
            NodeData::MethodDecl(d) => d.format_source(),
            NodeData::GlobalDecl(d) => d.format_source(),
            NodeData::TypeProgramNode(d) => d.format_source(),
            NodeData::UnitDecl(d) => d.format_source(),
        }
    }
}

impl SymbolNode {
    pub fn format_source(&self) -> (r: String)
        ensures
            r@ == data_text(self@),
    {
        self.name.clone()
    }
}

impl TypeName {
    pub fn format_source(&self) -> (r: String)
        ensures
            r@ == data_text(self@),
        decreases self, 0int,
    {
        let texts = format_all(&self.path);
        join_display(&texts, "::")
    }
}

impl ArrayDecl {
    pub fn format_source(&self) -> (r: String)
        ensures
            r@ == data_text(self@),
        decreases self, 0int,
    {
        let mut r = self.type_decl.format_source();
        r.append("[");
        r.append(format_commas(self.arity).as_str());
        r.append("]");
        r
    }
}

impl TypeRefDecl {
    pub fn format_source(&self) -> (r: String)
        ensures
            r@ == data_text(self@),
        decreases self, 0int,
    {
        let mut r = self.name.format_source();
        r.append(format_opt_set("<", ">", ", ", &self.generic_decl).as_str());
        r
    }
}

impl LambdaDecl {
    pub fn format_source(&self) -> (r: String)
        ensures
            r@ == data_text(self@),
        decreases self, 0int,
    {
        let mut r = format_opt_set("<", ">", ", ", &self.generic_params);
        r.append(format_set("(", ")", ", ", &self.params).as_str());
        r.append(" => ");
        match &self.return_type {
            Some(x) => {
                r.append(x.format_source().as_str());
            },
            None => {
                r.append("void");
            },
        }
        r
    }
}

impl MethodParamDecl {
    pub fn format_source(&self) -> (r: String)
        ensures
            r@ == data_text(self@),
        decreases self, 0int,
    {
        let mut r = if self.variadic {
            "...".to_owned()
        } else {
            String::new()
        };
        r.append(self.type_ref.format_source().as_str());
        r
    }
}

impl GenericParamDecl {
    pub fn format_source(&self) -> (r: String)
        ensures
            r@ == data_text(self@),
        decreases self, 0int,
    {
        let mut r = self.name.format_source();
        match &self.inherits {
            Some(x) => {
                r.append(": ");
                let texts = format_all(x);
                r.append(join_strings(&texts, " + ").as_str());
            },
            None => {},
        }
        r
    }
}

impl IdentifierDecl {
    pub fn format_source(&self) -> (r: String)
        ensures
            r@ == data_text(self@),
        decreases self, 0int,
    {
        let mut r = self.name.format_source();
        r.append(": ");
        r.append(self.type_ref.format_source().as_str());
        r
    }
}

impl TypeDecl {
    pub fn format_source(&self) -> (r: String)
        ensures
            r@ == data_text(self@),
        decreases self, 0int,
    {
        let mut r = "type ".to_owned();
        r.append(self.name.format_source().as_str());
        r.append(format_opt_set("<", ">", ", ", &self.generic_params).as_str());
        match &self.inherits {
            Some(x) => {
                r.append(StAst::format_inherits(x).as_str());
            },
            None => {},
        }
        match &self.body {
            Some(x) => {
                r.append(" ");
                r.append(StAst::format_body(x).as_str());
            },
            None => {
                r.append(";");
            },
        }
        r
    }
}

impl FieldDecl {
    pub fn format_source(&self) -> (r: String)
        ensures
            r@ == data_text(self@),
        decreases self, 0int,
    {
        let mut r = format_static(self.is_static);
        r.append(self.identifier.format_source().as_str());
        r.append(";");
        r
    }
}

impl MethodDecl {
    pub fn format_source(&self) -> (r: String)
        ensures
            r@ == data_text(self@),
        decreases self, 0int,
    {
        let mut r = format_static(self.is_static);
        r.append(self.name.format_source().as_str());
        r.append(format_opt_set("<", ">", ", ", &self.generic_params).as_str());
        r.append(format_set("(", ")", ", ", &self.params).as_str());
        match &self.return_type {
            Some(x) => {
                r.append(": ");
                r.append(x.format_source().as_str());
            },
            None => {},
        }
        r.append(";");
        r
    }
}

impl GlobalDecl {
    pub fn format_source(&self) -> (r: String)
        ensures
            r@ == data_text(self@),
        decreases self, 0int,
    {
        let mut r = "static ".to_owned();
        r.append(self.identifier.format_source().as_str());
        r.append(";");
        r
    }
}

impl TypeProgramNode {
    pub fn format_source(&self) -> (r: String)
        ensures
            r@ == data_text(self@),
        decreases self, 0int,
    {
        let texts = format_all(&self.statements);
        join_strings(&texts, "\n\n")
    }
}

impl UnitDecl {
    pub fn format_source(&self) -> (r: String)
        ensures
            r@ == data_text(self@),
        decreases self, 0int,
    {
        let mut r = "(".to_owned();
        r.append(self.unit.format_source().as_str());
        r.append(")");
        r
    }
}

} // verus!
