use orx_criterion::Data;

pub struct NoFactors;

impl Data for NoFactors {
    fn factor_names() -> Vec<&'static str> {
        vec![]
    }

    fn factor_values(&self) -> Vec<String> {
        vec![]
    }
}

pub struct Width(usize);

impl Data for Width {
    fn factor_names() -> Vec<&'static str> {
        vec!["width"]
    }

    fn factor_values(&self) -> Vec<String> {
        vec![self.0.to_string()]
    }
}

pub struct Sorting {
    len: usize,
    sort: bool,
    split: char,
}

impl Data for Sorting {
    fn factor_names() -> Vec<&'static str> {
        vec!["len", "sort", "split"]
    }

    fn factor_names_short() -> Vec<&'static str> {
        vec!["l", "srt", "sp"]
    }

    fn factor_values(&self) -> Vec<String> {
        vec![
            self.len.to_string(),
            self.sort.to_string(),
            self.split.to_string(),
        ]
    }

    fn factor_values_short(&self) -> Vec<String> {
        vec![
            self.len.to_string(),
            match self.sort {
                true => "T".to_string(),
                false => "F".to_string(),
            },
            self.split.to_string(),
        ]
    }
}

#[test]
fn data_treatment_0() {
    let t = NoFactors;

    assert_eq!(t.key_long(), "");
}

#[test]
fn data_treatment_1() {
    let t = Width(42);

    assert_eq!(t.key_long(), "width:42");
}

#[test]
fn data_treatment_3() {
    let t = Sorting {
        len: 9876543210,
        sort: true,
        split: '7',
    };

    assert_eq!(t.key_long(), "len:9876543210_sort:true_split:7");
    assert_eq!(t.key_short(), "l:9876543210_srt:T_sp:7");
}
