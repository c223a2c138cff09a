use lox_syntax::expr_parser::{
    assign_to, parse, parse_arguments, parse_binary_op, parse_expr, parse_grouping,
    parse_logical_op, parse_primary, parse_unary_op,
};
use lox_syntax::parser::expect_identifier;
use lox_syntax::{
    BinaryOperator, Expr, LogicalOperator, Parser, Precedence, Span, SyntaxError, Token,
    TokenKind, UnaryOperator, WithSpan,
};

fn keyword(word: &str) -> Option<Token> {
    match word {
        "and" => Some(Token::And),
        "class" => Some(Token::Class),
        "else" => Some(Token::Else),
        "false" => Some(Token::False),
        "for" => Some(Token::For),
        "fun" => Some(Token::Fun),
        "if" => Some(Token::If),
        "import" => Some(Token::Import),
        "nil" => Some(Token::Nil),
        "or" => Some(Token::Or),
        "print" => Some(Token::Print),
        "return" => Some(Token::Return),
        "super" => Some(Token::Super),
        "this" => Some(Token::This),
        "true" => Some(Token::True),
        "var" => Some(Token::Var),
        "while" => Some(Token::While),
        _ => None,
    }
}

fn punctuation(first: u8, second: Option<u8>) -> (Token, usize) {
    let paired = second == Some(b'=');
    match first {
        b'(' => (Token::LeftParen, 1),
        b')' => (Token::RightParen, 1),
        b'{' => (Token::LeftBrace, 1),
        b'}' => (Token::RightBrace, 1),
        b',' => (Token::Comma, 1),
        b'.' => (Token::Dot, 1),
        b'-' => (Token::Minus, 1),
        b'+' => (Token::Plus, 1),
        b';' => (Token::Semicolon, 1),
        b'/' => (Token::Slash, 1),
        b'*' => (Token::Star, 1),
        b'!' if paired => (Token::BangEqual, 2),
        b'!' => (Token::Bang, 1),
        b'=' if paired => (Token::EqualEqual, 2),
        b'=' => (Token::Equal, 1),
        b'>' if paired => (Token::GreaterEqual, 2),
        b'>' => (Token::Greater, 1),
        b'<' if paired => (Token::LessEqual, 2),
        b'<' => (Token::Less, 1),
        other => (Token::Unknown(other as char), 1),
    }
}

fn tokenize(source: &str) -> Vec<WithSpan<Token>> {
    let bytes = source.as_bytes();
    let mut tokens = Vec::new();
    let mut at = 0;
    while at < bytes.len() {
        let start = at;
        let byte = bytes[at];
        let token = if byte.is_ascii_whitespace() {
            at += 1;
            continue;
        } else if byte.is_ascii_digit() {
            while at < bytes.len() && bytes[at].is_ascii_digit() {
                at += 1;
            }
            if at + 1 < bytes.len() && bytes[at] == b'.' && bytes[at + 1].is_ascii_digit() {
                at += 1;
                while at < bytes.len() && bytes[at].is_ascii_digit() {
                    at += 1;
                }
            }
            let value: f64 = source[start..at].parse().unwrap();
            Token::Number(value.to_bits())
        } else if byte == b'"' {
            at += 1;
            while at < bytes.len() && bytes[at] != b'"' {
                at += 1;
            }
            if at < bytes.len() {
                at += 1;
                Token::String(source[start + 1..at - 1].to_string())
            } else {
                Token::UnterminatedString
            }
        } else if byte.is_ascii_alphabetic() || byte == b'_' {
            while at < bytes.len() && (bytes[at].is_ascii_alphanumeric() || bytes[at] == b'_') {
                at += 1;
            }
            let word = &source[start..at];
            keyword(word).unwrap_or_else(|| Token::Identifier(word.to_string()))
        } else {
            let (token, width) = punctuation(byte, bytes.get(at + 1).copied());
            at += width;
            token
        };
        tokens.push(WithSpan::new(token, Span::new(start as u32, at as u32)));
    }
    tokens
}

fn parse_str(data: &str) -> Result<Expr, SyntaxError> {
    let tokens = tokenize(data);
    let mut parser = Parser::new(&tokens);
    parse(&mut parser)
}

fn wspn<T>(value: T, start: u32, end: u32) -> WithSpan<T> {
    WithSpan::new(value, Span::new(start, end))
}

fn name(text: &str, start: u32, end: u32) -> WithSpan<String> {
    wspn(text.to_string(), start, end)
}

fn nr(value: f64) -> Expr {
    Expr::Number(value.to_bits())
}

fn simple_binary(operator: WithSpan<BinaryOperator>) -> Expr {
    let left = nr(1.);
    let right = nr(2.);
    Expr::Binary(Box::new(left), operator, Box::new(right))
}

fn binary(left: Expr, operator: WithSpan<BinaryOperator>, right: Expr) -> Expr {
    Expr::Binary(Box::new(left), operator, Box::new(right))
}

fn minus_nr(value: f64, start: u32) -> Expr {
    Expr::Unary(wspn(UnaryOperator::Minus, start, start + 1), Box::new(nr(value)))
}

#[test]
fn test_primary() {
    assert_eq!(parse_str("nil"), Ok(Expr::Nil));
    assert_eq!(parse_str("1.0"), Ok(nr(1.0)));
    assert_eq!(parse_str("1"), Ok(nr(1.0)));
    assert_eq!(parse_str("true"), Ok(Expr::Boolean(true)));
    assert_eq!(parse_str("false"), Ok(Expr::Boolean(false)));
    assert_eq!(parse_str("\"test\""), Ok(Expr::String(String::from("test"))));
    assert_eq!(parse_str("test"), Ok(Expr::Variable(name("test", 0, 4))));
    assert_eq!(parse_str("this"), Ok(Expr::This));
    assert_eq!(parse_str("super.iets"), Ok(Expr::Super(name("iets", 6, 10))));
}

#[test]
fn test_unary() {
    assert_eq!(
        parse_str("-nil"),
        Ok(Expr::Unary(wspn(UnaryOperator::Minus, 0, 1), Box::new(Expr::Nil)))
    );
    assert_eq!(
        parse_str("!nil"),
        Ok(Expr::Unary(wspn(UnaryOperator::Bang, 0, 1), Box::new(Expr::Nil)))
    );
    assert_eq!(
        parse_str("!!nil"),
        Ok(Expr::Unary(
            wspn(UnaryOperator::Bang, 0, 1),
            Box::new(Expr::Unary(wspn(UnaryOperator::Bang, 1, 2), Box::new(Expr::Nil)))
        ))
    );
    assert_eq!(
        parse_str("!-nil"),
        Ok(Expr::Unary(
            wspn(UnaryOperator::Bang, 0, 1),
            Box::new(Expr::Unary(wspn(UnaryOperator::Minus, 1, 2), Box::new(Expr::Nil)))
        ))
    );
    assert_eq!(
        parse_str("-!nil"),
        Ok(Expr::Unary(
            wspn(UnaryOperator::Minus, 0, 1),
            Box::new(Expr::Unary(wspn(UnaryOperator::Bang, 1, 2), Box::new(Expr::Nil)))
        ))
    );
}

#[test]
fn test_binary() {
    assert_eq!(parse_str("1!=2"), Ok(simple_binary(wspn(BinaryOperator::BangEqual, 1, 3))));
    assert_eq!(parse_str("1==2"), Ok(simple_binary(wspn(BinaryOperator::EqualEqual, 1, 3))));
    assert_eq!(parse_str("1>2"), Ok(simple_binary(wspn(BinaryOperator::Greater, 1, 2))));
    assert_eq!(parse_str("1>=2"), Ok(simple_binary(wspn(BinaryOperator::GreaterEqual, 1, 3))));
    assert_eq!(parse_str("1<2"), Ok(simple_binary(wspn(BinaryOperator::Less, 1, 2))));
    assert_eq!(parse_str("1<=2"), Ok(simple_binary(wspn(BinaryOperator::LessEqual, 1, 3))));
    assert_eq!(parse_str("1+2"), Ok(simple_binary(wspn(BinaryOperator::Plus, 1, 2))));
    assert_eq!(parse_str("1-2"), Ok(simple_binary(wspn(BinaryOperator::Minus, 1, 2))));
    assert_eq!(parse_str("1*2"), Ok(simple_binary(wspn(BinaryOperator::Star, 1, 2))));
    assert_eq!(parse_str("1/2"), Ok(simple_binary(wspn(BinaryOperator::Slash, 1, 2))));
}

#[test]
fn test_binary_precedence() {
    assert_eq!(
        parse_str("1*2+3*4"),
        Ok(binary(
            binary(nr(1.), wspn(BinaryOperator::Star, 1, 2), nr(2.)),
            wspn(BinaryOperator::Plus, 3, 4),
            binary(nr(3.), wspn(BinaryOperator::Star, 5, 6), nr(4.))
        ))
    );
    assert_eq!(
        parse_str("-1*-2"),
        Ok(binary(minus_nr(1., 0), wspn(BinaryOperator::Star, 2, 3), minus_nr(2., 3)))
    );
}

#[test]
fn test_errors() {
    assert_eq!(parse_str("1+2 3"), Ok(simple_binary(wspn(BinaryOperator::Plus, 1, 2))));
    assert!(matches!(parse_str("1+"), Err(SyntaxError::Unexpected(_))));
}

#[test]
fn test_grouping() {
    assert_eq!(parse_str("(1)"), Ok(Expr::Grouping(Box::new(nr(1.)))));
    assert_eq!(
        parse_str("((1))"),
        Ok(Expr::Grouping(Box::new(Expr::Grouping(Box::new(nr(1.))))))
    );
    assert_eq!(
        parse_str("(1+2)*(1+2)"),
        Ok(binary(
            Expr::Grouping(Box::new(simple_binary(wspn(BinaryOperator::Plus, 2, 3)))),
            wspn(BinaryOperator::Star, 5, 6),
            Expr::Grouping(Box::new(simple_binary(wspn(BinaryOperator::Plus, 8, 9)))),
        ))
    );
    assert!(matches!(parse_str("(1"), Err(SyntaxError::Expected(TokenKind::RightParen, _))));
    assert!(matches!(
        parse_str("(1}"),
        Err(SyntaxError::Expected(
            TokenKind::RightParen,
            WithSpan { span: _, value: Token::RightBrace }
        ))
    ));
}

#[test]
fn test_logical() {
    assert_eq!(
        parse_str("true or false"),
        Ok(Expr::Logical(
            Box::new(Expr::Boolean(true)),
            wspn(LogicalOperator::Or, 5, 7),
            Box::new(Expr::Boolean(false)),
        ))
    );
    assert_eq!(
        parse_str("true and false"),
        Ok(Expr::Logical(
            Box::new(Expr::Boolean(true)),
            wspn(LogicalOperator::And, 5, 8),
            Box::new(Expr::Boolean(false)),
        ))
    );
}

#[test]
fn test_logical_precedence() {
    assert_eq!(
        parse_str("1 and 2 or 3 and 4"),
        Ok(Expr::Logical(
            Box::new(Expr::Logical(
                Box::new(nr(1.)),
                wspn(LogicalOperator::And, 2, 5),
                Box::new(nr(2.)),
            )),
            wspn(LogicalOperator::Or, 8, 10),
            Box::new(Expr::Logical(
                Box::new(nr(3.)),
                wspn(LogicalOperator::And, 13, 16),
                Box::new(nr(4.)),
            )),
        ))
    );
}

#[test]
fn test_assignment() {
    assert_eq!(parse_str("a=3"), Ok(Expr::Assign(name("a", 0, 1), Box::new(nr(3.)))));
    assert_eq!(
        parse_str("a=b=3"),
        Ok(Expr::Assign(
            name("a", 0, 1),
            Box::new(Expr::Assign(name("b", 2, 3), Box::new(nr(3.))))
        ))
    );
    assert!(matches!(parse_str("a="), Err(SyntaxError::Unexpected(_))));
    assert!(matches!(
        parse_str("3=3"),
        Err(SyntaxError::InvalidLeftValue(WithSpan { span: _, value: Expr::Number(_) }))
    ));
    assert_eq!(
        parse_str("a=1+2"),
        Ok(Expr::Assign(
            name("a", 0, 1),
            Box::new(simple_binary(wspn(BinaryOperator::Plus, 3, 4)))
        ))
    );
}

#[test]
fn test_call() {
    assert_eq!(
        parse_str("a()"),
        Ok(Expr::Call(Box::new(Expr::Variable(name("a", 0, 1))), vec![]))
    );
    assert_eq!(
        parse_str("a(3)"),
        Ok(Expr::Call(Box::new(Expr::Variable(name("a", 0, 1))), vec![nr(3.)]))
    );
    assert_eq!(
        parse_str("a(3,4)"),
        Ok(Expr::Call(Box::new(Expr::Variable(name("a", 0, 1))), vec![nr(3.), nr(4.),]))
    );
    assert_eq!(
        parse_str("-a(3)"),
        Ok(Expr::Unary(
            wspn(UnaryOperator::Minus, 0, 1),
            Box::new(Expr::Call(Box::new(Expr::Variable(name("a", 1, 2))), vec![nr(3.)]))
        ))
    );
    assert_eq!(
        parse_str("a(3)+a(3)"),
        Ok(Expr::Binary(
            Box::new(Expr::Call(Box::new(Expr::Variable(name("a", 0, 1))), vec![nr(3.)])),
            wspn(BinaryOperator::Plus, 4, 5),
            Box::new(Expr::Call(Box::new(Expr::Variable(name("a", 5, 6))), vec![nr(3.)]))
        ))
    );
    assert!(matches!(
        parse_str("a(3,)"),
        Err(SyntaxError::Unexpected(WithSpan { span: _, value: Token::RightParen }))
    ));
}

#[test]
fn test_get() {
    assert_eq!(
        parse_str("a.b"),
        Ok(Expr::Get(Box::new(Expr::Variable(name("a", 0, 1))), name("b", 2, 3)))
    );
    assert_eq!(
        parse_str("a.b.c"),
        Ok(Expr::Get(
            Box::new(Expr::Get(Box::new(Expr::Variable(name("a", 0, 1))), name("b", 2, 3))),
            name("c", 4, 5),
        ))
    );
    assert_eq!(
        parse_str("a.b(3).c"),
        Ok(Expr::Get(
            Box::new(Expr::Call(
                Box::new(Expr::Get(Box::new(Expr::Variable(name("a", 0, 1))), name("b", 2, 3))),
                vec![nr(3.0)]
            )),
            name("c", 7, 8)
        ))
    );
}

#[test]
fn test_set() {
    assert_eq!(
        parse_str("a.b=3"),
        Ok(Expr::SetMember(
            Box::new(Expr::Variable(name("a", 0, 1))),
            name("b", 2, 3),
            Box::new(nr(3.))
        ))
    );
}

#[test]
fn primary_carries_the_span_of_its_token() {
    let tokens = tokenize("  12.5");
    let mut parser = Parser::new(&tokens);
    assert_eq!(parse_primary(&mut parser), Ok(wspn(nr(12.5), 2, 6)));
    assert_eq!(parser.position(), 1);

    let tokens = tokenize(" \"ab\"");
    let mut parser = Parser::new(&tokens);
    assert_eq!(parse_primary(&mut parser), Ok(wspn(Expr::String("ab".to_string()), 1, 5)));

    let tokens = tokenize("nil true false this x");
    let mut parser = Parser::new(&tokens);
    assert_eq!(parse_primary(&mut parser), Ok(wspn(Expr::Nil, 0, 3)));
    assert_eq!(parse_primary(&mut parser), Ok(wspn(Expr::Boolean(true), 4, 8)));
    assert_eq!(parse_primary(&mut parser), Ok(wspn(Expr::Boolean(false), 9, 14)));
    assert_eq!(parse_primary(&mut parser), Ok(wspn(Expr::This, 15, 19)));
    assert_eq!(parse_primary(&mut parser), Ok(wspn(Expr::Variable(name("x", 20, 21)), 20, 21)));
    assert_eq!(parser.position(), 5);
}

#[test]
fn super_access_spans_keyword_and_member() {
    let tokens = tokenize("super.iets");
    let mut parser = Parser::new(&tokens);
    assert_eq!(parse_primary(&mut parser), Ok(wspn(Expr::Super(name("iets", 6, 10)), 0, 10)));
    assert_eq!(parser.position(), 3);
}

#[test]
fn super_needs_a_dot_and_a_member() {
    assert_eq!(
        parse_str("super"),
        Err(SyntaxError::Expected(TokenKind::Dot, WithSpan::empty(Token::Eof)))
    );
    assert_eq!(
        parse_str("super.1"),
        Err(SyntaxError::Expected(
            TokenKind::Identifier,
            wspn(Token::Number(1f64.to_bits()), 6, 7)
        ))
    );
}

#[test]
fn grouping_spans_both_parentheses() {
    let tokens = tokenize(" (1 + 2 ) ");
    let mut parser = Parser::new(&tokens);
    assert_eq!(
        parse_grouping(&mut parser),
        Ok(wspn(Expr::Grouping(Box::new(simple_binary(wspn(BinaryOperator::Plus, 4, 5)))), 1, 9))
    );
    assert_eq!(parser.position(), 5);
}

#[test]
fn trailing_tokens_stay_unconsumed() {
    let tokens = tokenize("1+2 3");
    let mut parser = Parser::new(&tokens);
    assert_eq!(parse(&mut parser), Ok(simple_binary(wspn(BinaryOperator::Plus, 1, 2))));
    assert_eq!(parser.position(), 3);
    assert_eq!(parser.peek(), TokenKind::Number);
    assert!(!parser.is_eof());
    assert_eq!(parse(&mut parser), Ok(nr(3.)));
    assert!(parser.is_eof());
}

#[test]
fn parsing_stops_before_a_weaker_operator() {
    let tokens = tokenize("1*2+3");
    let mut parser = Parser::new(&tokens);
    assert_eq!(
        parse_expr(&mut parser, Precedence::Term),
        Ok(binary(nr(1.), wspn(BinaryOperator::Star, 1, 2), nr(2.)))
    );
    assert_eq!(parser.position(), 3);
    assert_eq!(parser.peek(), TokenKind::Plus);
}

#[test]
fn a_bang_after_an_expression_is_unexpected() {
    assert_eq!(parse_str("1 ! 2"), Err(SyntaxError::Unexpected(wspn(Token::Bang, 2, 3))));
}

#[test]
fn empty_input_is_unexpected_end() {
    assert_eq!(parse_str(""), Err(SyntaxError::Unexpected(WithSpan::empty(Token::Eof))));
    assert_eq!(parse_str("1+"), Err(SyntaxError::Unexpected(WithSpan::empty(Token::Eof))));
}

#[test]
fn unclosed_grouping_expects_right_paren_at_end() {
    assert_eq!(
        parse_str("(1"),
        Err(SyntaxError::Expected(TokenKind::RightParen, WithSpan::empty(Token::Eof)))
    );
    assert_eq!(
        parse_str("(1}"),
        Err(SyntaxError::Expected(TokenKind::RightParen, wspn(Token::RightBrace, 2, 3)))
    );
}

#[test]
fn trailing_comma_is_unexpected_at_the_parenthesis() {
    assert_eq!(parse_str("a(3,)"), Err(SyntaxError::Unexpected(wspn(Token::RightParen, 4, 5))));
    assert_eq!(
        parse_str("a(3 4)"),
        Err(SyntaxError::Expected(TokenKind::RightParen, wspn(Token::Number(4f64.to_bits()), 4, 5)))
    );
}

#[test]
fn arguments_stop_before_the_parenthesis() {
    let tokens = tokenize("1, x, 2+3)");
    let mut parser = Parser::new(&tokens);
    assert_eq!(
        parse_arguments(&mut parser),
        Ok(vec![
            nr(1.),
            Expr::Variable(name("x", 3, 4)),
            binary(nr(2.), wspn(BinaryOperator::Plus, 7, 8), nr(3.)),
        ])
    );
    assert_eq!(parser.peek(), TokenKind::RightParen);

    let tokens = tokenize(")");
    let mut parser = Parser::new(&tokens);
    assert_eq!(parse_arguments(&mut parser), Ok(vec![]));
    assert_eq!(parser.position(), 0);
}

#[test]
fn member_access_needs_a_name() {
    assert_eq!(
        parse_str("a.(b)"),
        Err(SyntaxError::Expected(TokenKind::Identifier, wspn(Token::LeftParen, 2, 3)))
    );
}

#[test]
fn invalid_target_carries_the_expression() {
    assert_eq!(
        parse_str("3=3"),
        Err(SyntaxError::InvalidLeftValue(WithSpan::empty(nr(3.))))
    );
    assert_eq!(
        parse_str("(a)=3"),
        Err(SyntaxError::InvalidLeftValue(WithSpan::empty(Expr::Grouping(Box::new(
            Expr::Variable(name("a", 1, 2))
        )))))
    );
    assert!(matches!(parse_str("3=+"), Err(SyntaxError::Unexpected(_))));
}

#[test]
fn assign_to_rewrites_variables_and_members() {
    assert_eq!(
        assign_to(Expr::Variable(name("a", 0, 1)), Expr::Nil),
        Ok(Expr::Assign(name("a", 0, 1), Box::new(Expr::Nil)))
    );
    assert_eq!(
        assign_to(Expr::Get(Box::new(Expr::This), name("f", 5, 6)), nr(2.)),
        Ok(Expr::SetMember(Box::new(Expr::This), name("f", 5, 6), Box::new(nr(2.))))
    );
    assert_eq!(
        assign_to(Expr::This, Expr::Nil),
        Err(SyntaxError::InvalidLeftValue(WithSpan::empty(Expr::This)))
    );
}

#[test]
fn operator_helpers_reject_other_tokens() {
    let tokens = tokenize("nil");
    let mut parser = Parser::new(&tokens);
    assert_eq!(
        parse_unary_op(&mut parser),
        Err(SyntaxError::ExpectedUnaryOperator(wspn(Token::Nil, 0, 3)))
    );
    let mut parser = Parser::new(&tokens);
    assert_eq!(
        parse_logical_op(&mut parser),
        Err(SyntaxError::ExpectedUnaryOperator(wspn(Token::Nil, 0, 3)))
    );
    let mut parser = Parser::new(&tokens);
    assert_eq!(
        parse_binary_op(&mut parser),
        Err(SyntaxError::ExpectedBinaryOperator(wspn(Token::Nil, 0, 3)))
    );
    let tokens = tokenize("+");
    let mut parser = Parser::new(&tokens);
    assert_eq!(
        parse_primary(&mut parser),
        Err(SyntaxError::ExpectedPrimary(wspn(Token::Plus, 0, 1)))
    );
}

#[test]
fn operator_helpers_take_their_tokens() {
    let tokens = tokenize("! - and or <= /");
    let mut parser = Parser::new(&tokens);
    assert_eq!(parse_unary_op(&mut parser), Ok(wspn(UnaryOperator::Bang, 0, 1)));
    assert_eq!(parse_unary_op(&mut parser), Ok(wspn(UnaryOperator::Minus, 2, 3)));
    assert_eq!(parse_logical_op(&mut parser), Ok(wspn(LogicalOperator::And, 4, 7)));
    assert_eq!(parse_logical_op(&mut parser), Ok(wspn(LogicalOperator::Or, 8, 10)));
    assert_eq!(parse_binary_op(&mut parser), Ok(wspn(BinaryOperator::LessEqual, 11, 13)));
    assert_eq!(parse_binary_op(&mut parser), Ok(wspn(BinaryOperator::Slash, 14, 15)));
    assert!(parser.is_eof());
}

#[test]
fn precedence_table() {
    assert_eq!(Precedence::from(TokenKind::Equal), Precedence::Assign);
    assert_eq!(Precedence::from(TokenKind::Or), Precedence::Or);
    assert_eq!(Precedence::from(TokenKind::And), Precedence::And);
    assert_eq!(Precedence::from(TokenKind::BangEqual), Precedence::Equality);
    assert_eq!(Precedence::from(TokenKind::EqualEqual), Precedence::Equality);
    assert_eq!(Precedence::from(TokenKind::Less), Precedence::Comparison);
    assert_eq!(Precedence::from(TokenKind::LessEqual), Precedence::Comparison);
    assert_eq!(Precedence::from(TokenKind::Greater), Precedence::Comparison);
    assert_eq!(Precedence::from(TokenKind::GreaterEqual), Precedence::Comparison);
    assert_eq!(Precedence::from(TokenKind::Plus), Precedence::Term);
    assert_eq!(Precedence::from(TokenKind::Minus), Precedence::Term);
    assert_eq!(Precedence::from(TokenKind::Star), Precedence::Factor);
    assert_eq!(Precedence::from(TokenKind::Slash), Precedence::Factor);
    assert_eq!(Precedence::from(TokenKind::Bang), Precedence::Unary);
    assert_eq!(Precedence::from(TokenKind::LeftParen), Precedence::Call);
    assert_eq!(Precedence::from(TokenKind::Dot), Precedence::Call);
    assert_eq!(Precedence::from(TokenKind::Comma), Precedence::Lowest);
    assert_eq!(Precedence::from(TokenKind::Eof), Precedence::Lowest);
    assert_eq!(Precedence::from(TokenKind::Number), Precedence::Lowest);
}

#[test]
fn precedence_order() {
    let order = [
        Precedence::Lowest,
        Precedence::Assign,
        Precedence::Or,
        Precedence::And,
        Precedence::Equality,
        Precedence::Comparison,
        Precedence::Term,
        Precedence::Factor,
        Precedence::Unary,
        Precedence::Call,
        Precedence::Primary,
    ];
    for (i, low) in order.iter().enumerate() {
        assert_eq!(low.rank() as usize, i);
        for (j, high) in order.iter().enumerate() {
            assert_eq!(high.holds_against(*low), j >= i);
        }
    }
}

#[test]
fn span_union_covers_both() {
    assert_eq!(Span::union(Span::new(3, 5), Span::new(8, 9)), Span::new(3, 9));
    assert_eq!(Span::union(Span::new(8, 9), Span::new(3, 5)), Span::new(3, 9));
    assert_eq!(Span::union(Span::new(2, 10), Span::new(4, 6)), Span::new(2, 10));
    assert_eq!(Span::empty(), Span::new(0, 0));
}

#[test]
fn cursor_reads_and_stops_at_the_end() {
    let tokens = tokenize("a ,");
    let mut parser = Parser::new(&tokens);
    assert_eq!(parser.peek(), TokenKind::Identifier);
    assert!(parser.check(TokenKind::Identifier));
    assert_eq!(parser.peek_token(), wspn(Token::Identifier("a".to_string()), 0, 1));
    assert_eq!(parser.advance(), wspn(Token::Identifier("a".to_string()), 0, 1));
    assert_eq!(parser.expect(TokenKind::Comma), Ok(wspn(Token::Comma, 2, 3)));
    assert!(parser.is_eof());
    assert_eq!(parser.position(), 2);
    assert_eq!(parser.advance(), WithSpan::empty(Token::Eof));
    assert_eq!(parser.position(), 2);
    assert_eq!(
        parser.expect(TokenKind::Comma),
        Err(SyntaxError::Expected(TokenKind::Comma, WithSpan::empty(Token::Eof)))
    );
}

#[test]
fn expect_takes_the_token_even_when_it_fails() {
    let tokens = tokenize("a b");
    let mut parser = Parser::new(&tokens);
    assert_eq!(
        parser.expect(TokenKind::Dot),
        Err(SyntaxError::Expected(TokenKind::Dot, wspn(Token::Identifier("a".to_string()), 0, 1)))
    );
    assert_eq!(parser.position(), 1);
    assert_eq!(expect_identifier(&mut parser), Ok(name("b", 2, 3)));
    assert_eq!(
        expect_identifier(&mut parser),
        Err(SyntaxError::Expected(TokenKind::Identifier, WithSpan::empty(Token::Eof)))
    );
}

#[test]
fn token_kinds_and_copies() {
    assert_eq!(Token::Number(2f64.to_bits()).to_kind(), TokenKind::Number);
    assert_eq!(Token::String("s".to_string()).to_kind(), TokenKind::String);
    assert_eq!(Token::Identifier("s".to_string()).to_kind(), TokenKind::Identifier);
    assert_eq!(Token::Unknown('#').to_kind(), TokenKind::Unknown);
    assert_eq!(Token::Eof.to_kind(), TokenKind::Eof);
    for token in tokenize("( ) { } , . - + ; / * ! != = == > >= < <= x \"s\" 1 and class else false fun for if nil or print return super this true var while import # \"open") {
        assert_eq!(token.value.clone(), token.value);
        assert_eq!(lox_syntax::token::copy_token(&token), token);
    }
}

#[test]
fn subtraction_is_left_associative() {
    assert_eq!(
        parse_str("1-2-3"),
        Ok(binary(
            binary(nr(1.), wspn(BinaryOperator::Minus, 1, 2), nr(2.)),
            wspn(BinaryOperator::Minus, 3, 4),
            nr(3.)
        ))
    );
}

#[test]
fn clone_copies_the_tree() {
    let parsed = parse_str("f(a.b, -1, \"s\").g = (x = nil) or !this and super.m").unwrap();
    assert_eq!(parsed.clone(), parsed);
    assert_eq!(parsed.duplicate(), parsed);
    let call = parse_str("f(1, 2, 3)").unwrap();
    assert_eq!(
        call.clone(),
        Expr::Call(Box::new(Expr::Variable(name("f", 0, 1))), vec![nr(1.), nr(2.), nr(3.)])
    );
}

fn failure_position(data: &str) -> usize {
    let tokens = tokenize(data);
    let mut parser = Parser::new(&tokens);
    assert!(parse(&mut parser).is_err());
    parser.position()
}

#[test]
fn a_failure_leaves_the_cursor_after_the_last_token_taken() {
    assert_eq!(failure_position(""), 0);
    assert_eq!(failure_position("1+"), 2);
    assert_eq!(failure_position("+"), 0);
    assert_eq!(failure_position("(1}"), 3);
    assert_eq!(failure_position("(1"), 2);
    assert_eq!(failure_position("a(3,)"), 4);
    assert_eq!(failure_position("a(3 4)"), 4);
    assert_eq!(failure_position("a.(b)"), 3);
    assert_eq!(failure_position("3=3 4"), 3);
    assert_eq!(failure_position("super x"), 2);
    assert_eq!(failure_position("super.1"), 3);
    assert_eq!(failure_position("1 ! 2"), 1);
}

#[test]
fn what_follows_an_expression_does_not_change_it() {
    let expected = binary(
        nr(1.),
        wspn(BinaryOperator::Plus, 1, 2),
        binary(nr(2.), wspn(BinaryOperator::Star, 3, 4), nr(3.)),
    );
    for source in ["1+2*3", "1+2*3 4", "1+2*3) x", "1+2*3; print", "1+2*3, 5", "1+2*3 }"] {
        let tokens = tokenize(source);
        let mut parser = Parser::new(&tokens);
        assert_eq!(parse(&mut parser), Ok(binary(
            nr(1.),
            wspn(BinaryOperator::Plus, 1, 2),
            binary(nr(2.), wspn(BinaryOperator::Star, 3, 4), nr(3.)),
        )));
        assert_eq!(parser.position(), 5);
    }
    assert_eq!(parse_str("1+2*3"), Ok(expected));
}

#[test]
fn a_prefix_operator_takes_calls_and_members_only() {
    assert_eq!(
        parse_str("-a.b(1)"),
        Ok(Expr::Unary(
            wspn(UnaryOperator::Minus, 0, 1),
            Box::new(Expr::Call(
                Box::new(Expr::Get(Box::new(Expr::Variable(name("a", 1, 2))), name("b", 3, 4))),
                vec![nr(1.)]
            ))
        ))
    );
    assert_eq!(
        parse_str("!1 or 2"),
        Ok(Expr::Logical(
            Box::new(Expr::Unary(wspn(UnaryOperator::Bang, 0, 1), Box::new(nr(1.)))),
            wspn(LogicalOperator::Or, 3, 5),
            Box::new(nr(2.))
        ))
    );
    assert!(matches!(
        parse_str("-a=1"),
        Err(SyntaxError::InvalidLeftValue(WithSpan { span: _, value: Expr::Unary(_, _) }))
    ));
}

#[test]
fn logical_operators_are_left_associative() {
    assert_eq!(
        parse_str("1 or 2 or 3"),
        Ok(Expr::Logical(
            Box::new(Expr::Logical(
                Box::new(nr(1.)),
                wspn(LogicalOperator::Or, 2, 4),
                Box::new(nr(2.))
            )),
            wspn(LogicalOperator::Or, 7, 9),
            Box::new(nr(3.))
        ))
    );
    assert_eq!(
        parse_str("1 < 2 == 3 > 4"),
        Ok(binary(
            binary(nr(1.), wspn(BinaryOperator::Less, 2, 3), nr(2.)),
            wspn(BinaryOperator::EqualEqual, 6, 8),
            binary(nr(3.), wspn(BinaryOperator::Greater, 11, 12), nr(4.))
        ))
    );
}

#[test]
fn an_end_token_in_the_input_ends_the_expression() {
    let tokens = vec![
        wspn(Token::Number(1f64.to_bits()), 0, 1),
        wspn(Token::Eof, 1, 1),
        wspn(Token::Plus, 1, 2),
    ];
    let mut parser = Parser::new(&tokens);
    assert_eq!(parse(&mut parser), Ok(nr(1.)));
    assert_eq!(parser.position(), 1);
    assert!(parser.is_eof());
    assert_eq!(parser.advance(), wspn(Token::Eof, 1, 1));
    assert_eq!(parser.position(), 2);
}
