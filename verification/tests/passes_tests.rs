use tinyml::ast::{AstNode, Type};
use tinyml::lexer::Lexer;
use tinyml::parser::Parser;
use tinyml::passes::visit_debug::{type_string, DebugVisitor};
use tinyml::passes::visit_def::DefVisitor;

fn tree(src: &str) -> Box<AstNode> {
    Parser::new(Lexer::new(src.to_string()).tokenize()).parse().unwrap()
}

fn debug_lines(src: &str) -> Vec<String> {
    let mut visitor = DebugVisitor::new();
    assert_eq!(visitor.visit(&tree(src)), Ok(()));
    visitor.lines
}

fn def_lines(src: &str) -> Vec<String> {
    let mut visitor = DefVisitor::new();
    assert_eq!(visitor.visit(&tree(src)), Ok(()));
    visitor.lines
}

#[test]
fn new_visitors_hold_no_lines() {
    assert!(DebugVisitor::new().lines.is_empty());
    assert!(DefVisitor::new().lines.is_empty());
}

#[test]
fn debug_lines_of_a_val_declaration() {
    assert_eq!(
        debug_lines("val x = 1"),
        vec![
            "<program>",
            "  <val_decl>",
            "    <id_pattern value=\"x\">",
            "    </id_pattern>",
            "    <type value=\"none\">",
            "    </type>",
            "      <literal val=\"1\" ty=\"int\" />",
            "  </val_decl>",
            "</program>",
        ]
    );
}

#[test]
fn debug_lines_of_a_fun_declaration() {
    assert_eq!(
        debug_lines("fun f (a, _) => a + 1 | 'b => true : int -> 'c * bool"),
        vec![
            "<program>",
            "  <fun_decl name=\"f\">",
            "    <type value=\"Arrow(Int, Product(Var(\"c\"), Bool))\">",
            "    </type>",
            "    <clause>",
            "      <pair_pattern>",
            "        <id_pattern value=\"a\">",
            "        </id_pattern>",
            "        <wildcard_pattern>",
            "        </wildcard_pattern>",
            "      </pair_pattern>",
            "      <bin_op op=\"Add\">",
            "        <left>",
            "        <id value=\"a\">",
            "        </id>",
            "        </left>",
            "        <right>",
            "          <literal val=\"1\" ty=\"int\" />",
            "        </right>",
            "      </bin_op>",
            "    </clause>",
            "    <clause>",
            "      <var_pattern value=\"b\">",
            "      </var_pattern>",
            "        <literal val=\"true\" ty=\"bool\" />",
            "    </clause>",
            "  </fun_decl>",
            "</program>",
        ]
    );
}

#[test]
fn debug_lines_of_expressions() {
    assert_eq!(
        debug_lines("val 0 = if c then f x else let val y = () in [y, (1, 2)] end"),
        vec![
            "<program>",
            "  <val_decl>",
            "    <literal_pattern>",
            "    </literal_pattern>",
            "    <type value=\"none\">",
            "    </type>",
            "    <if>",
            "      <condition>",
            "      <id value=\"c\">",
            "      </id>",
            "      </condition>",
            "      <then>",
            "      <app>",
            "        <func>",
            "        <id value=\"f\">",
            "        </id>",
            "        </func>",
            "        <arg>",
            "        <id value=\"x\">",
            "        </id>",
            "        </arg>",
            "      </app>",
            "      </then>",
            "      <else>",
            "      <let>",
            "        <decl>",
            "        <val_decl>",
            "          <id_pattern value=\"y\">",
            "          </id_pattern>",
            "          <type value=\"none\">",
            "          </type>",
            "          <tuple size=\"0\">",
            "          </tuple>",
            "        </val_decl>",
            "        </decl>",
            "        <body>",
            "        <list size=\"2\">",
            "          <id value=\"y\">",
            "          </id>",
            "          <tuple size=\"2\">",
            "              <literal val=\"1\" ty=\"int\" />",
            "              <literal val=\"2\" ty=\"int\" />",
            "          </tuple>",
            "        </list>",
            "        </body>",
            "      </let>",
            "      </else>",
            "    </if>",
            "  </val_decl>",
            "</program>",
        ]
    );
}

#[test]
fn debug_lines_of_a_fun_expression() {
    let lines = debug_lines("val g = fun x => x");
    assert_eq!(
        lines[6..],
        [
            "    <fn>",
            "      <clause>",
            "        <id_pattern value=\"x\">",
            "        </id_pattern>",
            "        <id value=\"x\">",
            "        </id>",
            "      </clause>",
            "    </fn>",
            "  </val_decl>",
            "</program>",
        ]
    );
}

#[test]
fn debug_lines_of_other_nodes() {
    let mut visitor = DebugVisitor::new();
    assert!(visitor.visit(&AstNode::Var("a".to_string())).is_ok());
    assert_eq!(visitor.lines, vec!["<var value=\"a\">", "</var>"]);
    let twelve: Vec<Box<AstNode>> =
        (0..12).map(|i| Box::new(AstNode::Id(format!("x{}", i)))).collect();
    let mut visitor = DebugVisitor::new();
    assert!(visitor.visit(&AstNode::Tuple(twelve)).is_ok());
    assert_eq!(visitor.lines[0], "<tuple size=\"12\">");
    assert_eq!(visitor.lines.len(), 26);
}

#[test]
fn visits_add_to_the_lines_already_there() {
    let mut visitor = DebugVisitor::new();
    assert!(visitor.visit(&AstNode::Id("a".to_string())).is_ok());
    assert!(visitor.visit(&AstNode::Id("b".to_string())).is_ok());
    assert_eq!(
        visitor.lines,
        vec!["<id value=\"a\">", "</id>", "<id value=\"b\">", "</id>"]
    );
}

#[test]
fn types_as_terms() {
    assert_eq!(type_string(&Type::Int), "Int");
    assert_eq!(type_string(&Type::String), "String");
    assert_eq!(type_string(&Type::Var("a".to_string())), "Var(\"a\")");
    let t = Type::Arrow(
        Box::new(Type::Product(Box::new(Type::Char), Box::new(Type::Bool))),
        Box::new(Type::Var("r".to_string())),
    );
    assert_eq!(type_string(&t), "Arrow(Product(Char, Bool), Var(\"r\"))");
    assert_eq!(type_string(&t), format!("{:?}", t));
}

#[test]
fn one_line_for_each_val_declaration() {
    assert_eq!(def_lines("val x = 1"), vec!["Visit val decl!"]);
    assert_eq!(def_lines("val x = 1; val y = 2 val z = 3"), vec!["Visit val decl!"; 3]);
    assert_eq!(def_lines("fun f x => x"), Vec::<String>::new());
}

#[test]
fn val_declarations_inside_expressions_are_found() {
    let src = "fun f x => let val a = 1 in (a, [let val b = 2 in b end]) end | y => if y then \
               let val c = 3 in c end else g (fun z => let val d = 4 in d end) + 1";
    assert_eq!(def_lines(src), vec!["Visit val decl!"; 4]);
}

#[test]
fn val_declarations_inside_val_declarations_are_not_reported() {
    assert_eq!(def_lines("val x = let val y = 1 in y end"), vec!["Visit val decl!"]);
}
