use crate::calc_type::{bindings_of, memoized, typable, type_of};
use crate::lexer::{lex_source, scan};
use crate::st_ast::{asts_model, AstModel, NodeData, NodeModel, StAst, TypeProgramNode};
use crate::st_parser::{parse_model, statements_at, type_program_at, type_program_parser};
use crate::st_token::{tokens_model, StToken, TokenModel};
use crate::type_resolution::{field_free, plain_instance, InstancedType};
use crate::types::{Type, TypeMap, TypeModel};
use std::rc::Rc;
use vstd::prelude::*;

verus! {

/// Why a source is no type program.
#[derive(Debug)]
pub enum TypeProgramError {
    /// A character of the source begins no token.
    FailedToLex,
    /// The tokens, which are handed back, do not read as a program: from
    /// the token at the given place on, no statement can be read.
    ParseError(Vec<StToken>, usize),
}

/// A parsed type program: its syntax tree, and its type once that has been
/// asked for.
#[derive(Debug)]
pub struct TypeProgram {
    ast: StAst,
    program_type: Option<Rc<Type>>,
}

/// The place at which the reading of statements stops: that of the first
/// token from which no statement can be read, or the number of tokens if
/// they all read as statements.
pub open spec fn stop_of(tokens: Seq<TokenModel>) -> usize {
    type_program_at(tokens, 0).1 as usize
}

/// The tree that a source reads as: its tokens read as a program.
pub open spec fn source_model(source: Seq<char>) -> Option<AstModel> {
    match scan(source, 0) {
        Some(tokens) => parse_model(tokens),
        None => None,
    }
}

/// The source without a token reads as the program without a statement,
/// and the type of that program binds no name.
pub proof fn lemma_empty_program()
    ensures
        scan(Seq::<char>::empty(), 0) == Some(Seq::<TokenModel>::empty()),
        source_model(Seq::<char>::empty()) matches Some(program) && program.data
            == (NodeModel::TypeProgramNode { statements: Seq::empty() }) && type_of(program, None).1
            == (TypeModel::Program { types: Map::empty() }),
{
    let t = Seq::<TokenModel>::empty();
    assert(statements_at(t, 0, Seq::empty()) == (Seq::<AstModel>::empty(), 0int));
    assert(type_program_at(t, 0).1 == 0);
    let program = parse_model(t)->0;
    assert(program.data == NodeModel::TypeProgramNode { statements: Seq::empty() });
    assert(bindings_of(Seq::<AstModel>::empty()) == Map::<Seq<char>, TypeModel>::empty());
}

impl Clone for TypeProgramError {
    fn clone(&self) -> (r: TypeProgramError)
        ensures
            r == *self || (r matches TypeProgramError::ParseError(copy, place) && *self
                matches TypeProgramError::ParseError(tokens, stopped) && copy@ == tokens@ && place
                == stopped),
    {
        match self {
            TypeProgramError::FailedToLex => TypeProgramError::FailedToLex,
            TypeProgramError::ParseError(tokens, stopped) => {
                let mut copy: Vec<StToken> = Vec::new();
                let mut i: usize = 0;
                while i < tokens.len()
                    invariant
                        i <= tokens@.len(),
                        copy@ == tokens@.subrange(0, i as int),
                    decreases tokens@.len() - i,
                {
                    copy.push(tokens[i].clone());
                    proof {
                        assert(copy@ == tokens@.subrange(0, i + 1));
                    }
                    i = i + 1;
                }
                proof {
                    assert(tokens@.subrange(0, tokens@.len() as int) == tokens@);
                }
                TypeProgramError::ParseError(copy, *stopped)
            },
        }
    }
}

impl TypeProgram {
    #[verifier::type_invariant]
    spec fn well_formed(self) -> bool {
        &&& typable(self.ast@, false)
        &&& type_of(self.ast@, None).1 is Program
        &&& field_free(type_of(self.ast@, None).1->Program_types)
        &&& self.program_type matches Some(t) ==> t@ == type_of(self.ast@, None).1
    }

    /// The syntax tree of the program.
    pub closed spec fn tree(self) -> AstModel {
        self.ast@
    }

    /// Whether the type of the program has been asked for before.
    pub closed spec fn knows_program_type(self) -> bool {
        self.program_type is Some
    }

    /// The type of the program.
    pub open spec fn program_model(self) -> TypeModel {
        type_of(self.tree(), None).1
    }

    /// The top-level bindings of the program.
    pub open spec fn globals_model(self) -> Map<Seq<char>, TypeModel> {
        self.program_model()->Program_types
    }

    pub fn ast(&self) -> (r: &StAst)
        ensures
            r@ == self.tree(),
    {
        &self.ast
    }

    pub fn program_type(&self) -> (r: &Option<Rc<Type>>)
        ensures
            r is Some == self.knows_program_type(),
            r matches Some(t) ==> t@ == self.program_model(),
    {
        proof {
            use_type_invariant(self);
        }
        &self.program_type
    }

    /// The tokens of `source`.
    pub fn lex(source: &str) -> (r: Result<Vec<StToken>, TypeProgramError>)
        ensures
            match r {
                Ok(tokens) => scan(source@, 0) == Some(tokens_model(tokens@)),
                Err(e) => e is FailedToLex && scan(source@, 0) is None,
            },
    {
        match lex_source(source) {
            Some(tokens) => Ok(tokens),
            None => Err(TypeProgramError::FailedToLex),
        }
    }

    /// The program that the tokens read as. A failure to lex is handed on;
    /// tokens that do not read as a program are handed back in the error,
    /// with the place at which the reading of statements stopped.
    #[verifier::rlimit(50)]
    pub fn parse(lex_result: Result<Vec<StToken>, TypeProgramError>) -> (r: Result<
        TypeProgram,
        TypeProgramError,
    >)
        ensures
            match lex_result {
                Err(e) => r == Err::<TypeProgram, TypeProgramError>(e),
                Ok(tokens) => match parse_model(tokens_model(tokens@)) {
                    Some(program) => r matches Ok(p) && p.tree() == program
                        && !p.knows_program_type(),
                    None => r == Err::<TypeProgram, TypeProgramError>(
                        TypeProgramError::ParseError(tokens, stop_of(tokens_model(tokens@))),
                    ),
                },
            },
    {
        match lex_result {
            Err(e) => Err(e),
            Ok(tokens) => {
                let (ast, end) = type_program_parser(&tokens, 0);
                if end == tokens.len() {
                    Ok(TypeProgram { ast, program_type: None })
                } else {
                    Err(TypeProgramError::ParseError(tokens, end))
                }
            },
        }
    }

    /// The program that `source` reads as.
    #[verifier::rlimit(50)]
    pub fn parse_string(source: &str) -> (r: Result<TypeProgram, TypeProgramError>)
        ensures
            match r {
                Ok(p) => source_model(source@) == Some(p.tree()) && !p.knows_program_type(),
                Err(TypeProgramError::FailedToLex) => scan(source@, 0) is None,
                Err(TypeProgramError::ParseError(tokens, stopped)) => scan(source@, 0) == Some(
                    tokens_model(tokens@),
                ) && source_model(source@) is None && stopped == stop_of(tokens_model(tokens@)),
            },
    {
        Self::parse(Self::lex(source))
    }

    /// The program that `source` reads as, with the type of every node computed.
    #[verifier::rlimit(50)]
    pub fn compile(source: &str) -> (r: Result<TypeProgram, TypeProgramError>)
        ensures
            match r {
                Ok(p) => source_model(source@) matches Some(program) && p.tree() == memoized(
                    program,
                    None,
                ) && !p.knows_program_type(),
                Err(TypeProgramError::FailedToLex) => scan(source@, 0) is None,
                Err(TypeProgramError::ParseError(tokens, stopped)) => scan(source@, 0) == Some(
                    tokens_model(tokens@),
                ) && source_model(source@) is None && stopped == stop_of(tokens_model(tokens@)),
            },
    {
        match Self::parse(Self::lex(source)) {
            Ok(mut program) => {
                let _ = program.compute_types();
                Ok(program)
            },
            Err(e) => Err(e),
        }
    }

    /// Computes the type of every node and hands back the type of the program.
    #[verifier::rlimit(50)]
    fn compute_types(&mut self) -> (r: Type)
        requires
            !old(self).knows_program_type(),
        ensures
            r@ == old(self).program_model(),
            r@ is Program,
            field_free(r@->Program_types),
            final(self).tree() == memoized(old(self).tree(), None),
            final(self).program_model() == old(self).program_model(),
            !final(self).knows_program_type(),
    {
        proof {
            use_type_invariant(&*self);
        }
        let mut ast = StAst::new(
            0..0,
            NodeData::TypeProgramNode(TypeProgramNode::new(Vec::new())),
        );
        proof {
            assert(asts_model(Seq::<StAst>::empty()) =~= Seq::<AstModel>::empty());
            assert(ast@.data == NodeModel::TypeProgramNode { statements: Seq::empty() });
            assert(crate::calc_type::node_typable(ast@.data, false));
            assert(typable(ast@, false));
            assert(type_of(ast@, None).1 is Program);
            assert(bindings_of(Seq::<AstModel>::empty()) == Map::<Seq<char>, TypeModel>::empty());
            assert(field_free(type_of(ast@, None).1->Program_types));
        }
        std::mem::swap(&mut self.ast, &mut ast);
        let typing = ast.calc_type(None);
        std::mem::swap(&mut self.ast, &mut ast);
        typing.1
    }

    /// The type of the program. The first call computes the type of every
    /// node and remembers the type of the program; later calls hand back
    /// what is remembered.
    #[verifier::rlimit(50)]
    pub fn get_program_type(&mut self) -> (r: Rc<Type>)
        ensures
            r@ == old(self).program_model(),
            r@ is Program,
            field_free(r@->Program_types),
            final(self).program_model() == old(self).program_model(),
            final(self).knows_program_type(),
            final(self).tree() == (if old(self).knows_program_type() {
                old(self).tree()
            } else {
                memoized(old(self).tree(), None)
            }),
    {
        proof {
            use_type_invariant(&*self);
        }
        match &self.program_type {
            Some(t) => t.clone(),
            None => {
                let computed = Rc::new(self.compute_types());
                self.program_type = Some(computed.clone());
                computed
            },
        }
    }

    /// The top-level bindings of the program.
    pub fn get_global_types(&mut self) -> (r: Rc<TypeMap>)
        ensures
            r@ == old(self).globals_model(),
            field_free(r@),
            final(self).program_model() == old(self).program_model(),
            final(self).knows_program_type(),
    {
        let program_type = self.get_program_type();
        match &*program_type {
            Type::ProgramType(p) => p.types.clone(),
            _ => unreached(),
        }
    }

    /// The program as the root of a resolution: any top-level chain starts here.
    pub fn get_global_instance(&mut self) -> (r: InstancedType)
        ensures
            r@ == plain_instance(old(self).program_model()),
            final(self).program_model() == old(self).program_model(),
            final(self).knows_program_type(),
    {
        let program_type = self.get_program_type();
        InstancedType::plain(&program_type)
    }
}

} // verus!
