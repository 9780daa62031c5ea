//! The command table that a new interpreter starts with.
use vstd::prelude::*;
use crate::interp::Interpreter;
use crate::machine::{Command, Machine};
use crate::queue::Text;

verus! {

/// `table` with the commands for the stack entered.
pub open spec fn stack_commands(table: Map<Text, Command>) -> Map<Text, Command> {
    table
        .insert(".."@, Command::Host)
        .insert("to"@, Command::Host)
        .insert("cls"@, Command::Cls)
        .insert("drop"@, Command::Drop)
        .insert("dropn"@, Command::Dropn)
        .insert("dup"@, Command::Dup)
        .insert("io"@, Command::Iota)
        .insert("rev"@, Command::Rev)
        .insert("roll"@, Command::Roll)
        .insert("rolln"@, Command::Rolln)
        .insert("rot"@, Command::Rot)
        .insert("rotn"@, Command::Rotn)
        .insert("swap"@, Command::Swap)
        .insert("take"@, Command::Take)
        .insert("taken"@, Command::Taken)
        .insert("store"@, Command::Store)
}

/// `table` with the commands for arithmetic entered.
pub open spec fn arithmetic_commands(table: Map<Text, Command>) -> Map<Text, Command> {
    table
        .insert("+"@, Command::Host)
        .insert("+_"@, Command::Host)
        .insert("sum"@, Command::Host)
        .insert("-"@, Command::Host)
        .insert("x"@, Command::Host)
        .insert("x_"@, Command::Host)
        .insert("prod"@, Command::Host)
        .insert("/"@, Command::Host)
        .insert("chs"@, Command::Host)
        .insert("abs"@, Command::Host)
        .insert("round"@, Command::Host)
        .insert("int"@, Command::Host)
        .insert("floor"@, Command::Host)
        .insert("ceil"@, Command::Host)
        .insert("pos"@, Command::Host)
        .insert("inv"@, Command::Host)
        .insert("sqrt"@, Command::Host)
        .insert("nroot"@, Command::Host)
        .insert("proot"@, Command::Host)
        .insert("^"@, Command::Host)
        .insert("exp"@, Command::Host)
        .insert("%"@, Command::Host)
        .insert("mod"@, Command::Host)
        .insert("!"@, Command::Factorial)
        .insert("gcd"@, Command::Gcd)
}

/// `table` with the commands for constants and functions of one or two numbers entered.
pub open spec fn functions_commands(table: Map<Text, Command>) -> Map<Text, Command> {
    table
        .insert("pi"@, Command::Host)
        .insert("e"@, Command::Host)
        .insert("g"@, Command::Host)
        .insert("deg_rad"@, Command::Host)
        .insert("rad_deg"@, Command::Host)
        .insert("sin"@, Command::Host)
        .insert("asin"@, Command::Host)
        .insert("cos"@, Command::Host)
        .insert("acos"@, Command::Host)
        .insert("tan"@, Command::Host)
        .insert("atan"@, Command::Host)
        .insert("log2"@, Command::Host)
        .insert("log"@, Command::Host)
        .insert("log10"@, Command::Host)
        .insert("logn"@, Command::Host)
        .insert("ln"@, Command::Host)
        .insert("loge"@, Command::Host)
        .insert("rand"@, Command::Host)
}

/// `table` with the commands for extremes, averages and number theory entered.
pub open spec fn statistics_commands(table: Map<Text, Command>) -> Map<Text, Command> {
    table
        .insert("max"@, Command::Host)
        .insert("max_all"@, Command::Host)
        .insert("max_"@, Command::Host)
        .insert("min"@, Command::Host)
        .insert("min_all"@, Command::Host)
        .insert("min_"@, Command::Host)
        .insert("minmax"@, Command::Host)
        .insert("avg"@, Command::Host)
        .insert("avg_all"@, Command::Host)
        .insert("avg_"@, Command::Host)
        .insert("sgn"@, Command::Host)
        .insert("tng"@, Command::Triangle)
        .insert("divs"@, Command::Host)
}

/// `table` with the commands for control flow entered.
pub open spec fn control_commands(table: Map<Text, Command>) -> Map<Text, Command> {
    table
        .insert("("@, Command::Function)
        .insert("["@, Command::Lambda)
        .insert("ifeq"@, Command::Ifeq)
        .insert("eq"@, Command::Host)
        .insert("lt"@, Command::Host)
        .insert("lte"@, Command::Host)
        .insert("gt"@, Command::Host)
        .insert("gte"@, Command::Host)
        .insert("{"@, Command::Comment)
}

/// `table` with the commands for conversions entered.
pub open spec fn conversion_commands(table: Map<Text, Command>) -> Map<Text, Command> {
    table
        .insert("dec_hex"@, Command::DecHex)
        .insert("hex_dec"@, Command::HexDec)
        .insert("dec_bin"@, Command::DecBin)
        .insert("bin_dec"@, Command::BinDec)
        .insert("bin_hex"@, Command::BinHex)
        .insert("hex_bin"@, Command::HexBin)
        .insert("c_f"@, Command::Host)
        .insert("C_F"@, Command::Host)
        .insert("f_c"@, Command::Host)
        .insert("F_C"@, Command::Host)
        .insert("mi_km"@, Command::Host)
        .insert("km_mi"@, Command::Host)
        .insert("ft_m"@, Command::Host)
        .insert("m_ft"@, Command::Host)
        .insert("hex_rgb"@, Command::HexRgb)
        .insert("rgb_hex"@, Command::RgbHex)
        .insert("tip"@, Command::Host)
        .insert("a_b"@, Command::Host)
        .insert("b_a"@, Command::Host)
        .insert("ascii"@, Command::Host)
}

/// `table` with the commands for bitwise operations and colours entered.
pub open spec fn bitwise_commands(table: Map<Text, Command>) -> Map<Text, Command> {
    table
        .insert("not"@, Command::Not)
        .insert("and"@, Command::And)
        .insert("nand"@, Command::Nand)
        .insert("or"@, Command::Or)
        .insert("nor"@, Command::Nor)
        .insert("xor"@, Command::Xor)
        .insert("ones"@, Command::Ones)
        .insert("rgb"@, Command::Host)
        .insert("rgbh"@, Command::Host)
        .insert("rgb_avg"@, Command::Host)
}

/// `table` with the commands for the combinators, configuration and output entered.
pub open spec fn service_commands(table: Map<Text, Command>) -> Map<Text, Command> {
    table
        .insert("map"@, Command::Each)
        .insert("fold"@, Command::Fold)
        .insert("scan"@, Command::Scan)
        .insert("save_config"@, Command::Host)
        .insert("show_config"@, Command::Host)
        .insert("peek"@, Command::Host)
        .insert("print"@, Command::Host)
}

/// `table` with every native command entered.
pub open spec fn standard_commands(table: Map<Text, Command>) -> Map<Text, Command> {
    service_commands(
        bitwise_commands(
            conversion_commands(
                control_commands(
                    statistics_commands(
                        functions_commands(arithmetic_commands(stack_commands(table))),
                    ),
                ),
            ),
        ),
    )
}

impl Interpreter {
    /// Enters the commands for the stack.
    pub fn init_stack(&mut self)
        ensures
            final(self)@ == (Machine { cmds: stack_commands(old(self)@.cmds), ..old(self)@ }),
    {
        self.build_native("..", Command::Host);
        self.build_native("to", Command::Host);
        self.build_native("cls", Command::Cls);
        self.build_native("drop", Command::Drop);
        self.build_native("dropn", Command::Dropn);
        self.build_native("dup", Command::Dup);
        self.build_native("io", Command::Iota);
        self.build_native("rev", Command::Rev);
        self.build_native("roll", Command::Roll);
        self.build_native("rolln", Command::Rolln);
        self.build_native("rot", Command::Rot);
        self.build_native("rotn", Command::Rotn);
        self.build_native("swap", Command::Swap);
        self.build_native("take", Command::Take);
        self.build_native("taken", Command::Taken);
        self.build_native("store", Command::Store);
    }

    /// Enters the commands for arithmetic.
    pub fn init_arithmetic(&mut self)
        ensures
            final(self)@ == (Machine { cmds: arithmetic_commands(old(self)@.cmds), ..old(self)@ }),
    {
        self.build_native("+", Command::Host);
        self.build_native("+_", Command::Host);
        self.build_native("sum", Command::Host);
        self.build_native("-", Command::Host);
        self.build_native("x", Command::Host);
        self.build_native("x_", Command::Host);
        self.build_native("prod", Command::Host);
        self.build_native("/", Command::Host);
        self.build_native("chs", Command::Host);
        self.build_native("abs", Command::Host);
        self.build_native("round", Command::Host);
        self.build_native("int", Command::Host);
        self.build_native("floor", Command::Host);
        self.build_native("ceil", Command::Host);
        self.build_native("pos", Command::Host);
        self.build_native("inv", Command::Host);
        self.build_native("sqrt", Command::Host);
        self.build_native("nroot", Command::Host);
        self.build_native("proot", Command::Host);
        self.build_native("^", Command::Host);
        self.build_native("exp", Command::Host);
        self.build_native("%", Command::Host);
        self.build_native("mod", Command::Host);
        self.build_native("!", Command::Factorial);
        self.build_native("gcd", Command::Gcd);
    }

    /// Enters the commands for constants and functions of one or two numbers.
    pub fn init_functions(&mut self)
        ensures
            final(self)@ == (Machine { cmds: functions_commands(old(self)@.cmds), ..old(self)@ }),
    {
        self.build_native("pi", Command::Host);
        self.build_native("e", Command::Host);
        self.build_native("g", Command::Host);
        self.build_native("deg_rad", Command::Host);
        self.build_native("rad_deg", Command::Host);
        self.build_native("sin", Command::Host);
        self.build_native("asin", Command::Host);
        self.build_native("cos", Command::Host);
        self.build_native("acos", Command::Host);
        self.build_native("tan", Command::Host);
        self.build_native("atan", Command::Host);
        self.build_native("log2", Command::Host);
        self.build_native("log", Command::Host);
        self.build_native("log10", Command::Host);
        self.build_native("logn", Command::Host);
        self.build_native("ln", Command::Host);
        self.build_native("loge", Command::Host);
        self.build_native("rand", Command::Host);
    }

    /// Enters the commands for extremes, averages and number theory.
    pub fn init_statistics(&mut self)
        ensures
            final(self)@ == (Machine { cmds: statistics_commands(old(self)@.cmds), ..old(self)@ }),
    {
        self.build_native("max", Command::Host);
        self.build_native("max_all", Command::Host);
        self.build_native("max_", Command::Host);
        self.build_native("min", Command::Host);
        self.build_native("min_all", Command::Host);
        self.build_native("min_", Command::Host);
        self.build_native("minmax", Command::Host);
        self.build_native("avg", Command::Host);
        self.build_native("avg_all", Command::Host);
        self.build_native("avg_", Command::Host);
        self.build_native("sgn", Command::Host);
        self.build_native("tng", Command::Triangle);
        self.build_native("divs", Command::Host);
    }

    /// Enters the commands for control flow.
    pub fn init_control(&mut self)
        ensures
            final(self)@ == (Machine { cmds: control_commands(old(self)@.cmds), ..old(self)@ }),
    {
        self.build_native("(", Command::Function);
        self.build_native("[", Command::Lambda);
        self.build_native("ifeq", Command::Ifeq);
        self.build_native("eq", Command::Host);
        self.build_native("lt", Command::Host);
        self.build_native("lte", Command::Host);
        self.build_native("gt", Command::Host);
        self.build_native("gte", Command::Host);
        self.build_native("{", Command::Comment);
    }

    /// Enters the commands for conversions.
    pub fn init_conversion(&mut self)
        ensures
            final(self)@ == (Machine { cmds: conversion_commands(old(self)@.cmds), ..old(self)@ }),
    {
        self.build_native("dec_hex", Command::DecHex);
        self.build_native("hex_dec", Command::HexDec);
        self.build_native("dec_bin", Command::DecBin);
        self.build_native("bin_dec", Command::BinDec);
        self.build_native("bin_hex", Command::BinHex);
        self.build_native("hex_bin", Command::HexBin);
        self.build_native("c_f", Command::Host);
        self.build_native("C_F", Command::Host);
        self.build_native("f_c", Command::Host);
        self.build_native("F_C", Command::Host);
        self.build_native("mi_km", Command::Host);
        self.build_native("km_mi", Command::Host);
        self.build_native("ft_m", Command::Host);
        self.build_native("m_ft", Command::Host);
        self.build_native("hex_rgb", Command::HexRgb);
        self.build_native("rgb_hex", Command::RgbHex);
        self.build_native("tip", Command::Host);
        self.build_native("a_b", Command::Host);
        self.build_native("b_a", Command::Host);
        self.build_native("ascii", Command::Host);
    }

    /// Enters the commands for bitwise operations and colours.
    pub fn init_bitwise(&mut self)
        ensures
            final(self)@ == (Machine { cmds: bitwise_commands(old(self)@.cmds), ..old(self)@ }),
    {
        self.build_native("not", Command::Not);
        self.build_native("and", Command::And);
        self.build_native("nand", Command::Nand);
        self.build_native("or", Command::Or);
        self.build_native("nor", Command::Nor);
        self.build_native("xor", Command::Xor);
        self.build_native("ones", Command::Ones);
        self.build_native("rgb", Command::Host);
        self.build_native("rgbh", Command::Host);
        self.build_native("rgb_avg", Command::Host);
    }

    /// Enters the commands for the combinators, configuration and output.
    pub fn init_service(&mut self)
        ensures
            final(self)@ == (Machine { cmds: service_commands(old(self)@.cmds), ..old(self)@ }),
    {
        self.build_native("map", Command::Each);
        self.build_native("fold", Command::Fold);
        self.build_native("scan", Command::Scan);
        self.build_native("save_config", Command::Host);
        self.build_native("show_config", Command::Host);
        self.build_native("peek", Command::Host);
        self.build_native("print", Command::Host);
    }

    /// Enters every native command.
    pub fn init(&mut self)
        ensures
            final(self)@ == (Machine { cmds: standard_commands(old(self)@.cmds), ..old(self)@ }),
    {
        self.init_stack();
        self.init_arithmetic();
        self.init_functions();
        self.init_statistics();
        self.init_control();
        self.init_conversion();
        self.init_bitwise();
        self.init_service();
    }
}

} // verus!
