use chess_engine::{
    ArrayIndex, BoardPosition, BoardPositionFromIsizeErrors, BoardPositionFromStrErrors,
    BoardPositionFromUsizeErrors, ChessFile, ChessRank, FileInstancingErrors,
    FromArrayIndexError, FromMatrixPositionError, MatrixPosition, RankInstancingErrors,
};

fn square(text: &str) -> BoardPosition {
    BoardPosition::from_algebraic(text).unwrap()
}

#[test]
fn algebraic_round_trip_on_all_squares() {
    for file in "abcdefgh".chars() {
        for rank in "12345678".chars() {
            let text = format!("{}{}", file, rank);
            let position = BoardPosition::from_algebraic(&text).unwrap();
            assert_eq!(position.algebraic(), text);
        }
    }
}

#[test]
fn write_then_read_gives_the_square_back() {
    for row in 0..8usize {
        for column in 0..8usize {
            let position = BoardPosition::from_indices(row, column);
            let text = position.algebraic();
            assert_eq!(BoardPosition::from_algebraic(&text), Ok(position));
        }
    }
}

#[test]
fn algebraic_names_match_indices() {
    assert_eq!(square("a1").indices(), (0, 0));
    assert_eq!(square("e4").indices(), (3, 4));
    assert_eq!(square("h8").indices(), (7, 7));
    assert_eq!(BoardPosition::from_indices(3, 4).algebraic(), "e4");
    assert_eq!(square("d4").to_matrix_position(), (3, 3));
}

#[test]
fn try_from_str_agrees_with_from_algebraic() {
    assert_eq!(BoardPosition::try_from("e4"), Ok(square("e4")));
    assert_eq!(
        BoardPosition::try_from("e44"),
        Err(BoardPositionFromStrErrors::ValueTooLarge("e44".to_string()))
    );
}

#[test]
fn wrong_length_is_malformed() {
    assert_eq!(
        BoardPosition::from_algebraic(""),
        Err(BoardPositionFromStrErrors::ValueTooLarge(String::new()))
    );
    assert_eq!(
        BoardPosition::from_algebraic("e"),
        Err(BoardPositionFromStrErrors::ValueTooLarge("e".to_string()))
    );
    assert_eq!(
        BoardPosition::from_algebraic("e10"),
        Err(BoardPositionFromStrErrors::ValueTooLarge("e10".to_string()))
    );
}

#[test]
fn rank_that_is_no_digit_is_malformed() {
    assert_eq!(
        BoardPosition::from_algebraic("ex"),
        Err(BoardPositionFromStrErrors::RankMustBeANumber("x".to_string()))
    );
    assert_eq!(
        BoardPosition::from_algebraic("a+"),
        Err(BoardPositionFromStrErrors::RankMustBeANumber("+".to_string()))
    );
}

#[test]
fn file_outside_a_to_h_is_out_of_range() {
    assert_eq!(
        BoardPosition::from_algebraic("i4"),
        Err(BoardPositionFromStrErrors::InvalidColumnFormat(
            FileInstancingErrors::InvalidColumnChar
        ))
    );
    assert_eq!(
        BoardPosition::from_algebraic("E4"),
        Err(BoardPositionFromStrErrors::InvalidColumnFormat(
            FileInstancingErrors::InvalidColumnChar
        ))
    );
    // The file is looked at before the rank.
    assert_eq!(
        BoardPosition::from_algebraic("zx"),
        Err(BoardPositionFromStrErrors::InvalidColumnFormat(
            FileInstancingErrors::InvalidColumnChar
        ))
    );
}

#[test]
fn rank_outside_1_to_8_is_out_of_range() {
    assert_eq!(
        BoardPosition::from_algebraic("e0"),
        Err(BoardPositionFromStrErrors::InvalidRowFormat(
            RankInstancingErrors::InvalidRowNumber
        ))
    );
    assert_eq!(
        BoardPosition::from_algebraic("e9"),
        Err(BoardPositionFromStrErrors::InvalidRowFormat(
            RankInstancingErrors::InvalidRowNumber
        ))
    );
}

#[test]
fn non_ascii_text_is_refused_without_panic() {
    assert_eq!(
        BoardPosition::from_algebraic("é4"),
        Err(BoardPositionFromStrErrors::InvalidColumnFormat(
            FileInstancingErrors::InvalidColumnChar
        ))
    );
    assert_eq!(
        BoardPosition::from_algebraic("eé"),
        Err(BoardPositionFromStrErrors::RankMustBeANumber("é".to_string()))
    );
}

#[test]
fn rank_from_number() {
    assert_eq!(ChessRank::try_from(1usize).unwrap().to_index(), 0);
    assert_eq!(ChessRank::try_from(8usize).unwrap().to_index(), 7);
    assert_eq!(ChessRank::try_from(8usize).unwrap().number(), 8);
    assert_eq!(ChessRank::try_from(3usize).unwrap().digit(), '3');
    assert_eq!(
        ChessRank::try_from(0usize),
        Err(RankInstancingErrors::InvalidRowNumber)
    );
    assert_eq!(
        ChessRank::try_from(9usize),
        Err(RankInstancingErrors::InvalidRowNumber)
    );
}

#[test]
fn rank_from_index() {
    assert_eq!(ChessRank::from_index(0), ChessRank::try_from(1usize).map_err(|_| FromArrayIndexError::IndexTooBig(7)));
    assert_eq!(ChessRank::from_index(7).unwrap().number(), 8);
    assert_eq!(
        ChessRank::from_index(8),
        Err(FromArrayIndexError::IndexTooBig(7))
    );
    assert_eq!(
        ChessRank::from_index(usize::MAX),
        Err(FromArrayIndexError::IndexTooBig(7))
    );
}

#[test]
fn file_from_letter() {
    assert_eq!(ChessFile::try_from('a').unwrap().to_index(), 0);
    assert_eq!(ChessFile::try_from('h').unwrap().to_index(), 7);
    assert_eq!(ChessFile::try_from('c').unwrap().letter(), 'c');
    assert_eq!(
        ChessFile::try_from('i'),
        Err(FileInstancingErrors::InvalidColumnChar)
    );
    assert_eq!(
        ChessFile::try_from('A'),
        Err(FileInstancingErrors::InvalidColumnChar)
    );
}

#[test]
fn file_from_index() {
    for (index, letter) in "abcdefgh".chars().enumerate() {
        let file = ChessFile::from_index(index).unwrap();
        assert_eq!(file.letter(), letter);
        assert_eq!(file.to_index(), index);
    }
    assert_eq!(
        ChessFile::from_index(8),
        Err(FromArrayIndexError::IndexTooBig(7))
    );
}

#[test]
fn position_from_unsigned_indices() {
    assert_eq!(BoardPosition::try_from((0usize, 0usize)), Ok(square("a1")));
    assert_eq!(BoardPosition::try_from((3usize, 4usize)), Ok(square("e4")));
    assert_eq!(
        BoardPosition::try_from((8usize, 0usize)),
        Err(BoardPositionFromUsizeErrors::RankTooHigh)
    );
    assert_eq!(
        BoardPosition::try_from((0usize, 8usize)),
        Err(BoardPositionFromUsizeErrors::FileTooHigh)
    );
    assert_eq!(
        BoardPosition::try_from((8usize, 8usize)),
        Err(BoardPositionFromUsizeErrors::RankTooHigh)
    );
}

#[test]
fn position_from_signed_indices() {
    assert_eq!(BoardPosition::try_from((7isize, 7isize)), Ok(square("h8")));
    assert_eq!(
        BoardPosition::try_from((-1isize, 0isize)),
        Err(BoardPositionFromIsizeErrors::NegativeRank)
    );
    assert_eq!(
        BoardPosition::try_from((0isize, -1isize)),
        Err(BoardPositionFromIsizeErrors::NegativeFile)
    );
    assert_eq!(
        BoardPosition::try_from((-1isize, -1isize)),
        Err(BoardPositionFromIsizeErrors::NegativeRank)
    );
    assert_eq!(
        BoardPosition::try_from((8isize, 0isize)),
        Err(BoardPositionFromIsizeErrors::RankTooHigh)
    );
    assert_eq!(
        BoardPosition::try_from((0isize, 8isize)),
        Err(BoardPositionFromIsizeErrors::FileTooHigh)
    );
}

#[test]
fn position_from_matrix_position() {
    assert_eq!(BoardPosition::from_matrix_position((3, 3)), Ok(square("d4")));
    assert_eq!(
        BoardPosition::from_matrix_position((8, 9)),
        Err(FromMatrixPositionError::MatrixRowTooBig(7))
    );
    assert_eq!(
        BoardPosition::from_matrix_position((7, 8)),
        Err(FromMatrixPositionError::MatrixColumnTooBig(7))
    );
}

#[test]
fn offsets_stay_on_the_board_or_give_none() {
    let e4 = square("e4");
    assert_eq!(e4.offset(1, 1), Some(square("f5")));
    assert_eq!(e4.offset(-3, -4), Some(square("a1")));
    assert_eq!(e4.offset(4, 3), Some(square("h8")));
    assert_eq!(e4.offset(5, 0), None);
    assert_eq!(e4.offset(0, 4), None);
    assert_eq!(e4.offset(-4, 0), None);
    assert_eq!(e4.offset(0, -5), None);
    assert_eq!(e4.offset(isize::MAX, isize::MIN), None);
    assert_eq!(e4.offset(0, 0), Some(e4));
}

#[test]
fn error_messages_are_sentences() {
    assert_eq!(
        RankInstancingErrors::InvalidRowNumber.message(),
        "The rank (row) must be a number between 1 and 8!"
    );
    assert_eq!(
        FileInstancingErrors::InvalidColumnChar.message(),
        "The column must be a char between 'a' and 'h'!"
    );
    assert_eq!(
        FromArrayIndexError::IndexTooBig(7).message(),
        "The array index must be equal or less than 7"
    );
    assert_eq!(
        BoardPositionFromUsizeErrors::FileTooHigh.message(),
        "The file (column) passed in is greater than 7."
    );
    assert_eq!(
        BoardPositionFromIsizeErrors::NegativeRank.message(),
        "The rank (row) passed in is negative."
    );
    assert_eq!(
        BoardPositionFromStrErrors::ValueTooLarge("e44".to_string()).message(),
        "The value must be of length 2."
    );
}
