use truthy::Truthy;

#[test]
#[allow(non_snake_case)]
fn TEST_String_Truthy() {
    // is_falsey
    {
        assert_eq!(false, String::from("").is_falsey());

        assert_eq!(true, String::from("0").is_falsey());
        assert_eq!(true, String::from("false").is_falsey());
        assert_eq!(true, String::from(" FALSE").is_falsey());
        assert_eq!(true, String::from("False").is_falsey());
        assert_eq!(true, String::from("FaLSe").is_falsey());
        assert_eq!(true, String::from("no").is_falsey());
        assert_eq!(true, String::from("No ").is_falsey());
        assert_eq!(true, String::from("NO").is_falsey());
        assert_eq!(true, String::from(" Off ").is_falsey());
        assert_eq!(true, String::from("off").is_falsey());
        assert_eq!(true, String::from("OFF").is_falsey());

        assert_eq!(false, String::from("1").is_falsey());
        assert_eq!(false, String::from("true").is_falsey());
        assert_eq!(false, String::from("TRUE").is_falsey());
        assert_eq!(false, String::from("True").is_falsey());
        assert_eq!(false, String::from("tRuE").is_falsey());
        assert_eq!(false, String::from("yes").is_falsey());
        assert_eq!(false, String::from(" YES").is_falsey());
        assert_eq!(false, String::from("Yes   ").is_falsey());
        assert_eq!(false, String::from("yEs").is_falsey());
    }

    // is_truey
    {
        assert_eq!(false, String::from("").is_truey());

        assert_eq!(false, String::from("0").is_truey());
        assert_eq!(false, String::from("false").is_truey());
        assert_eq!(false, String::from(" FALSE").is_truey());
        assert_eq!(false, String::from("False").is_truey());
        assert_eq!(false, String::from("FaLSe").is_truey());
        assert_eq!(false, String::from("no").is_truey());
        assert_eq!(false, String::from("No ").is_truey());
        assert_eq!(false, String::from("NO").is_truey());
        assert_eq!(false, String::from(" Off ").is_truey());
        assert_eq!(false, String::from("off").is_truey());
        assert_eq!(false, String::from("OFF").is_truey());

        assert_eq!(true, String::from("1").is_truey());
        assert_eq!(true, String::from("true").is_truey());
        assert_eq!(true, String::from("TRUE").is_truey());
        assert_eq!(true, String::from("True").is_truey());
        assert_eq!(true, String::from("tRuE").is_truey());
        assert_eq!(true, String::from("yes").is_truey());
        assert_eq!(true, String::from(" YES").is_truey());
        assert_eq!(true, String::from("Yes   ").is_truey());
        assert_eq!(true, String::from("yEs").is_truey());
    }

    // is_truthy
    {
        assert_eq!(None, String::from("").is_truthy());

        assert_eq!(Some(false), String::from("0").is_truthy());
        assert_eq!(Some(false), String::from("false").is_truthy());
        assert_eq!(Some(false), String::from(" FALSE").is_truthy());
        assert_eq!(Some(false), String::from("False").is_truthy());
        assert_eq!(Some(false), String::from("FaLSe").is_truthy());
        assert_eq!(Some(false), String::from("no").is_truthy());
        assert_eq!(Some(false), String::from("No ").is_truthy());
        assert_eq!(Some(false), String::from("NO").is_truthy());
        assert_eq!(Some(false), String::from(" Off ").is_truthy());
        assert_eq!(Some(false), String::from("off").is_truthy());
        assert_eq!(Some(false), String::from("OFF").is_truthy());

        assert_eq!(Some(true), String::from("1").is_truthy());
        assert_eq!(Some(true), String::from("true").is_truthy());
        assert_eq!(Some(true), String::from("TRUE").is_truthy());
        assert_eq!(Some(true), String::from("True").is_truthy());
        assert_eq!(Some(true), String::from("tRuE").is_truthy());
        assert_eq!(Some(true), String::from("yes").is_truthy());
        assert_eq!(Some(true), String::from(" YES").is_truthy());
        assert_eq!(Some(true), String::from("Yes   ").is_truthy());
        assert_eq!(Some(true), String::from("yEs").is_truthy());
    }
}

#[test]
#[allow(non_snake_case)]
fn TEST_bool_Truthy() {
    // bool
    {
        assert_eq!(true, false.is_falsey());
        assert_eq!(false, false.is_truey());
        assert_eq!(Some(false), false.is_truthy());

        assert_eq!(false, true.is_falsey());
        assert_eq!(true, true.is_truey());
        assert_eq!(Some(true), true.is_truthy());
    }

    // &bool
    {
        assert_eq!(true, (&false).is_falsey());
        assert_eq!(false, (&false).is_truey());
        assert_eq!(Some(false), (&false).is_truthy());

        assert_eq!(false, (&true).is_falsey());
        assert_eq!(true, (&true).is_truey());
        assert_eq!(Some(true), (&true).is_truthy());
    }

    // Option<bool>
    {
        assert_eq!(true, Some(false).is_falsey());
        assert_eq!(false, Some(false).is_truey());
        assert_eq!(Some(false), Some(false).is_truthy());

        assert_eq!(false, Some(true).is_falsey());
        assert_eq!(true, Some(true).is_truey());
        assert_eq!(Some(true), Some(true).is_truthy());
    }

    // Option<&bool>
    {
        assert_eq!(true, Some(&false).is_falsey());
        assert_eq!(false, Some(&false).is_truey());
        assert_eq!(Some(false), Some(&false).is_truthy());

        assert_eq!(false, Some(&true).is_falsey());
        assert_eq!(true, Some(&true).is_truey());
        assert_eq!(Some(true), Some(&true).is_truthy());
    }

    // &Option<bool>
    {
        assert_eq!(true, (&Some(false)).is_falsey());
        assert_eq!(false, (&Some(false)).is_truey());
        assert_eq!(Some(false), (&Some(false)).is_truthy());

        assert_eq!(false, (&Some(true)).is_falsey());
        assert_eq!(true, (&Some(true)).is_truey());
        assert_eq!(Some(true), (&Some(true)).is_truthy());
    }

    // &Option<&bool>
    {
        assert_eq!(true, (&Some(&false)).is_falsey());
        assert_eq!(false, (&Some(&false)).is_truey());
        assert_eq!(Some(false), (&Some(&false)).is_truthy());

        assert_eq!(false, (&Some(&true)).is_falsey());
        assert_eq!(true, (&Some(&true)).is_truey());
        assert_eq!(Some(true), (&Some(&true)).is_truthy());
    }
}

#[test]
#[allow(non_snake_case)]
fn TEST_str_Truthy() {
    // is_falsey
    {
        assert_eq!(false, "".is_falsey());

        assert_eq!(true, "0".is_falsey());
        assert_eq!(true, "false".is_falsey());
        assert_eq!(true, " FALSE".is_falsey());
        assert_eq!(true, "False".is_falsey());
        assert_eq!(true, "FaLSe".is_falsey());
        assert_eq!(true, "no".is_falsey());
        assert_eq!(true, "No ".is_falsey());
        assert_eq!(true, "NO".is_falsey());
        assert_eq!(true, " Off ".is_falsey());
        assert_eq!(true, "off".is_falsey());
        assert_eq!(true, "OFF".is_falsey());

        assert_eq!(false, "1".is_falsey());
        assert_eq!(false, "true".is_falsey());
        assert_eq!(false, "TRUE".is_falsey());
        assert_eq!(false, "True".is_falsey());
        assert_eq!(false, "tRuE".is_falsey());
        assert_eq!(false, "yes".is_falsey());
        assert_eq!(false, " YES".is_falsey());
        assert_eq!(false, "Yes   ".is_falsey());
        assert_eq!(false, "yEs".is_falsey());
    }

    {
        assert_eq!(false, "".is_truey());

        assert_eq!(false, "0".is_truey());
        assert_eq!(false, "false".is_truey());
        assert_eq!(false, " FALSE".is_truey());
        assert_eq!(false, "False".is_truey());
        assert_eq!(false, "FaLSe".is_truey());
        assert_eq!(false, "no".is_truey());
        assert_eq!(false, "No ".is_truey());
        assert_eq!(false, "NO".is_truey());
        assert_eq!(false, " Off ".is_truey());
        assert_eq!(false, "off".is_truey());
        assert_eq!(false, "OFF".is_truey());

        assert_eq!(true, "1".is_truey());
        assert_eq!(true, "true".is_truey());
        assert_eq!(true, "TRUE".is_truey());
        assert_eq!(true, "True".is_truey());
        assert_eq!(true, "tRuE".is_truey());
        assert_eq!(true, "yes".is_truey());
        assert_eq!(true, " YES".is_truey());
        assert_eq!(true, "Yes   ".is_truey());
        assert_eq!(true, "yEs".is_truey());
    }

    // is_truthy
    {
        assert_eq!(None, "".is_truthy());

        assert_eq!(Some(false), "0".is_truthy());
        assert_eq!(Some(false), "false".is_truthy());
        assert_eq!(Some(false), " FALSE".is_truthy());
        assert_eq!(Some(false), "False".is_truthy());
        assert_eq!(Some(false), "FaLSe".is_truthy());
        assert_eq!(Some(false), "no".is_truthy());
        assert_eq!(Some(false), "No ".is_truthy());
        assert_eq!(Some(false), "NO".is_truthy());
        assert_eq!(Some(false), " Off ".is_truthy());
        assert_eq!(Some(false), "off".is_truthy());
        assert_eq!(Some(false), "OFF".is_truthy());

        assert_eq!(Some(true), "1".is_truthy());
        assert_eq!(Some(true), "true".is_truthy());
        assert_eq!(Some(true), "TRUE".is_truthy());
        assert_eq!(Some(true), "True".is_truthy());
        assert_eq!(Some(true), "tRuE".is_truthy());
        assert_eq!(Some(true), "yes".is_truthy());
        assert_eq!(Some(true), " YES".is_truthy());
        assert_eq!(Some(true), "Yes   ".is_truthy());
        assert_eq!(Some(true), "yEs".is_truthy());
    }
}
