//! The shapes that a parser gives to the tokens: expression trees and
//! declarations, and how a declaration is written out.

use vstd::prelude::*;

verus! {

/// An expression.
#[derive(Debug)]
pub enum AstNode {
    BinaryOperation { left: Box<AstNode>, operator: String, right: Box<AstNode> },
    Value(String),
}

/// What a declaration declares.
#[derive(Debug, Clone, Copy, PartialEq, Eq, Structural)]
pub enum Class {
    Typedef,
    Variable,
    Function,
}

/// A type that needs no other type to be stated.
#[derive(Debug, Clone, PartialEq, Eq)]
pub enum BaseType {
    Int,
    Float,
    Char,
    Void,
    Other(String),
}

/// The type of what is declared.
#[derive(Debug, Clone, PartialEq, Eq)]
pub enum Type {
    Primitive { ttype: BaseType },
    Function { return_type: String, parameters: Vec<String> },
}

/// One declaration.
#[derive(Debug, Clone, PartialEq, Eq)]
pub struct Declaration {
    pub class: Class,
    pub name: String,
    pub type_info: Type,
    pub initializer: Option<String>,
}

/// The texts of `parts` in a row, with `, ` between each two.
pub open spec fn joined(parts: Seq<String>) -> Seq<char>
    decreases parts.len(),
{
    if parts.len() == 0 {
        Seq::empty()
    } else if parts.len() == 1 {
        parts[0]@
    } else {
        joined(parts.drop_last()) + ", "@ + parts.last()@
    }
}

impl Class {
    /// The word for the class.
    pub open spec fn text(&self) -> Seq<char> {
        match self {
            Class::Typedef => "typedef"@,
            Class::Variable => "variable"@,
            Class::Function => "function"@,
        }
    }

    /// The word for the class.
    pub fn to_text(&self) -> (s: String)
        ensures
            s@ == self.text(),
    {
        match self {
            Class::Typedef => "typedef".to_string(),
            Class::Variable => "variable".to_string(),
            Class::Function => "function".to_string(),
        }
    }
}

impl BaseType {
    /// The name of the type.
    pub open spec fn text(&self) -> Seq<char> {
        match self {
            BaseType::Int => "int"@,
            BaseType::Float => "float"@,
            BaseType::Char => "char"@,
            BaseType::Void => "void"@,
            BaseType::Other(s) => s@,
        }
    }

    /// The name of the type.
    pub fn to_text(&self) -> (s: String)
        ensures
            s@ == self.text(),
    {
        match self {
            BaseType::Int => "int".to_string(),
            BaseType::Float => "float".to_string(),
            BaseType::Char => "char".to_string(),
            BaseType::Void => "void".to_string(),
            BaseType::Other(s) => s.clone(),
        }
    }
}

impl Type {
    /// The type as it is written: a primitive type by its name, a function
    /// type as its return type and, in round brackets, its parameters.
    pub open spec fn text(&self) -> Seq<char> {
        match self {
            Type::Primitive { ttype } => ttype.text(),
            Type::Function { return_type, parameters } => return_type@ + "("@ + joined(
                parameters@,
            ) + ")"@,
        }
    }

    /// The type as it is written.
    pub fn to_text(&self) -> (s: String)
        ensures
            s@ == self.text(),
    {
        match self {
            Type::Primitive { ttype } => ttype.to_text(),
            Type::Function { return_type, parameters } => {
                let mut s = return_type.clone();
                s.append("(");
                let ghost head = s@;
                let mut i: usize = 0;
                while i < parameters.len()
                    invariant
                        i <= parameters.len(),
                        s@ == head + joined(parameters@.take(i as int)),
                    decreases parameters.len() - i,
                {
                    assert(parameters@.take(i + 1).drop_last() =~= parameters@.take(i as int));
                    if i > 0 {
                        s.append(", ");
                    }
                    s.append(parameters[i].as_str());
                    i = i + 1;
                }
                assert(parameters@.take(parameters.len() as int) =~= parameters@);
                s.append(")");
                s
            },
        }
    }
}

impl Declaration {
    /// The declaration as it is written: class, name and type, each in
    /// double quotes, and the initializer behind ` = ` if there is one.
    pub open spec fn text(&self) -> Seq<char> {
        "Class: \""@ + self.class.text() + "\", Name: \""@ + self.name@ + "\", Type: \""@
            + self.type_info.text() + "\""@ + (match self.initializer {
            Some(init) => " = "@ + init@,
            None => Seq::empty(),
        })
    }

    /// The declaration as it is written.
    pub fn to_text(&self) -> (s: String)
        ensures
            s@ == self.text(),
    {
        let mut s = "Class: \"".to_string();
        s.append(self.class.to_text().as_str());
        s.append("\", Name: \"");
        s.append(self.name.as_str());
        s.append("\", Type: \"");
        s.append(self.type_info.to_text().as_str());
        s.append("\"");
        match &self.initializer {
            Some(init) => {
                s.append(" = ");
                s.append(init.as_str());
            },
            None => {},
        }
        s
    }
}

} // verus!
