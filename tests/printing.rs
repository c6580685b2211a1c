use arith_parser::{print_syntax, tokenize, Parser};

fn printed(text: &str) -> String {
    let tokens = tokenize(text).unwrap();
    let mut parser = Parser::new(&tokens);
    let syntax = parser.parse().unwrap();
    let mut out: Vec<char> = Vec::new();
    print_syntax(&syntax, &mut out);
    out.iter().collect()
}

#[test]
fn binary_node_prints_operands_on_branches() {
    assert_eq!(printed("1+2"), "+\n└ 1\n└ 2\n");
}

#[test]
fn nested_nodes_are_indented_by_level() {
    assert_eq!(printed("1*(2+3)"), "*\n└ 1\n└ ( +\n    └ 2\n    └ 3\n  )\n");
}

#[test]
fn prefix_operator_and_literal_print_inline() {
    assert_eq!(printed("-7"), "- 7\n");
    assert_eq!(printed("+2.5"), "+ 2.5\n");
    assert_eq!(printed("(4)"), "( 4\n)\n");
}

#[test]
fn printing_appends_to_the_buffer() {
    let tokens = tokenize("9").unwrap();
    let mut parser = Parser::new(&tokens);
    let syntax = parser.parse().unwrap();
    let mut out: Vec<char> = vec!['>', ' '];
    print_syntax(&syntax, &mut out);
    assert_eq!(out.iter().collect::<String>(), "> 9\n");
}
